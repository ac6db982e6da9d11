//! Whether the kernel modules of the optional desktop backends are there.

use crate::command::Output;
use crate::findings::{
    CheckState, FindingSeverity, FindingView, InstallationFinding, InstallationGuide,
};
use crate::json;
use crate::json::{member, parsed, tree, Json};
use crate::text;
use crate::text::{outcome, texts};
use vstd::prelude::*;

verus! {

/// How long the modules may be examined, in milliseconds.
pub const CHECKS_MS: u64 = 10_000;

/// The most journal records that are read.
pub const MAX_RECORDS: usize = 81;

/// The longest name of a kernel release, in bytes.
pub const MAX_RELEASE: usize = 128;

/// Whether a module is installed.
#[derive(Clone, Debug)]
pub enum ModuleFile {
    Installed(String),
    Missing,
    Unverified(String),
}

/// The same as a value.
pub enum FileView {
    Installed(Seq<char>),
    Missing,
    Unverified(Seq<char>),
}

impl View for ModuleFile {
    type V = FileView;

    open spec fn view(&self) -> FileView {
        match self {
            ModuleFile::Installed(p) => FileView::Installed(p@),
            ModuleFile::Missing => FileView::Missing,
            ModuleFile::Unverified(e) => FileView::Unverified(e@),
        }
    }
}

pub open spec fn module_file_of(output: Result<Output, String>, module: Seq<char>) -> FileView {
    match output {
        Err(e) => FileView::Unverified("Host modinfo: "@ + e@),
        Ok(o) => if o.code == Some(0i32) && text::trimmed(o.stdout@).len() > 0 {
            FileView::Installed(text::trimmed(o.stdout@))
        } else if text::has_part(o.stderr@, "Module "@ + module + " not found"@) {
            FileView::Missing
        } else {
            FileView::Unverified("Host modinfo: "@ + text::trimmed(o.stderr@))
        },
    }
}

/// Whether a module is installed, by what the host's module tool gave.
pub fn module_file(output: &Result<Output, String>, module: &str) -> (r: ModuleFile)
    ensures
        r@ == module_file_of(*output, module@),
{
    match output {
        Err(e) => {
            let mut evidence = "Host modinfo: ".to_owned();
            evidence.append(e.as_str());
            ModuleFile::Unverified(evidence)
        },
        Ok(o) => {
            let path = text::trim(o.stdout.as_str());
            if o.success() && text::chars(path.as_str()).len() > 0 {
                return ModuleFile::Installed(path);
            }
            let mut missing = "Module ".to_owned();
            missing.append(module);
            missing.append(" not found");
            if text::contains(o.stderr.as_str(), missing.as_str()) {
                return ModuleFile::Missing;
            }
            let mut evidence = "Host modinfo: ".to_owned();
            evidence.append(text::trim(o.stderr.as_str()).as_str());
            ModuleFile::Unverified(evidence)
        },
    }
}

/// A line of the build system that lists a module.
pub open spec fn lists_module(line: Seq<char>, module: Seq<char>) -> bool {
    match text::split_once_spec(line, '/') {
        Some((name, _)) => text::replaced(name, '-', "_"@) == module,
        None => false,
    }
}

/// Whether any line from `i` on lists a module.
pub open spec fn registered_from(lines: Seq<Seq<char>>, module: Seq<char>, i: int) -> bool
    decreases lines.len() - i,
{
    if i < 0 || i >= lines.len() {
        false
    } else {
        lists_module(lines[i], module) || registered_from(lines, module, i + 1)
    }
}

/// Whether the build system lists a module.
pub fn dkms_registered(text: &str, module: &str) -> (r: bool)
    ensures
        r == registered_from(text::lines_of(text@), module@, 0),
{
    let lines = text::lines(text);
    let ghost all = texts(lines@);
    let mut i: usize = 0;
    while i < lines.len()
        invariant
            all == texts(lines@),
            all == text::lines_of(text@),
            i <= lines@.len(),
            registered_from(all, module@, 0) == registered_from(all, module@, i as int),
        decreases lines@.len() - i,
    {
        assert(all[i as int] == lines@[i as int]@);
        match text::split_once(lines[i].as_str(), '/') {
            Some((name, _)) => {
                if text::eq(text::replace(name.as_str(), '-', "_").as_str(), module) {
                    return true;
                }
            },
            None => {},
        }
        i += 1;
    }
    assert(all.len() == lines@.len());
    false
}

/// The text of a kernel journal record.
pub open spec fn record_text(record: Result<Json, Seq<char>>) -> Result<Seq<char>, Seq<char>> {
    match record {
        Err(e) => Err(e),
        Ok(json) => match member(json, "MESSAGE"@) {
            Some(Json::Text(s)) => Ok(s),
            _ => Err("Kernel journal message is not readable text"@),
        },
    }
}

/// The messages of the first `n` records, or the first error.
pub open spec fn texts_from(lines: Seq<Seq<char>>, n: int) -> Result<Seq<Seq<char>>, Seq<char>>
    decreases n,
{
    if n <= 0 {
        Ok(Seq::empty())
    } else {
        match texts_from(lines, n - 1) {
            Err(e) => Err(e),
            Ok(before) => match record_text(parsed(lines[n - 1])) {
                Err(e) => Err(e),
                Ok(s) => Ok(before.push(s)),
            },
        }
    }
}

/// How many records are read.
pub open spec fn counted(lines: Seq<Seq<char>>) -> int {
    if lines.len() < MAX_RECORDS {
        lines.len() as int
    } else {
        MAX_RECORDS as int
    }
}

/// The value of a call that gives texts.
pub open spec fn listed(r: Result<Vec<String>, String>) -> Result<Seq<Seq<char>>, Seq<char>> {
    match r {
        Ok(v) => Ok(texts(v@)),
        Err(e) => Err(e@),
    }
}

/// The text of a kernel journal record.
pub fn record_message(record: &serde_json::Value) -> (r: Result<String, String>)
    ensures
        match r {
            Ok(s) => record_text(Ok(tree(*record))) == Ok::<Seq<char>, Seq<char>>(s@),
            Err(e) => record_text(Ok(tree(*record))) == Err::<Seq<char>, Seq<char>>(e@),
        },
{
    match json::get(record, "MESSAGE") {
        Some(value) => match json::as_str(value) {
            Some(s) => Ok(s.to_owned()),
            None => Err("Kernel journal message is not readable text".to_owned()),
        },
        None => Err("Kernel journal message is not readable text".to_owned()),
    }
}

/// The messages of a kernel journal export.
pub fn journal_messages(text: &str) -> (r: Result<Vec<String>, String>)
    ensures
        listed(r) == texts_from(text::lines_of(text@), counted(text::lines_of(text@))),
{
    let lines = text::lines(text);
    let ghost all = texts(lines@);
    assert(all.len() == lines@.len());
    let n: usize = if lines.len() < MAX_RECORDS {
        lines.len()
    } else {
        MAX_RECORDS
    };
    let mut out: Vec<String> = Vec::new();
    let mut error: Option<String> = None;
    let mut i: usize = 0;
    assert(texts(out@) =~= Seq::<Seq<char>>::empty());
    while i < n
        invariant
            all == texts(lines@),
            n <= lines@.len(),
            i <= n,
            texts_from(all, i as int) == match error {
                Some(e) => Err(e@),
                None => Ok(texts(out@)),
            },
        decreases n - i,
    {
        assert(all[i as int] == lines@[i as int]@);
        if error.is_none() {
            let read = match json::parse(lines[i].as_str()) {
                Ok(record) => record_message(&record),
                Err(e) => Err(e),
            };
            match read {
                Ok(s) => {
                    proof {
                        text::texts_push(out@, s);
                    }
                    out.push(s);
                },
                Err(e) => {
                    error = Some(e);
                },
            }
        }
        i += 1;
    }
    match error {
        Some(e) => Err(e),
        None => Ok(out),
    }
}

/// A character of a name.
pub open spec fn is_name_char(c: char) -> bool {
    text::is_alphanumeric(c) || c == '_'
}

/// Whether a name stands in a text from `at` on, with nothing of a name before or after it.
pub open spec fn named_at(s: Seq<char>, name: Seq<char>, at: int) -> bool {
    &&& text::occurs_at(s, name, at)
    &&& at == 0 || !is_name_char(s[at - 1])
    &&& at + name.len() == s.len() || !is_name_char(s[at + name.len()])
}

/// Whether a text holds a name as a word.
pub open spec fn names_word(s: Seq<char>, name: Seq<char>) -> bool {
    (forall|i: int| 0 <= i < name.len() ==> is_name_char(#[trigger] name[i])) && exists|at: int|
        #[trigger] named_at(s, name, at)
}

fn name_char(c: char) -> (r: bool)
    ensures
        r == is_name_char(c),
{
    text::alphanumeric(c) || c == '_'
}

fn holds_word(s: &str, name: &str) -> (r: bool)
    ensures
        r == names_word(s@, name@),
{
    let v = text::chars(s);
    let w = text::chars(name);
    let n: usize = v.len();
    let mut k: usize = 0;
    while k < w.len()
        invariant
            w@ == name@,
            k <= w@.len(),
            forall|i: int| 0 <= i < k ==> is_name_char(#[trigger] name@[i]),
        decreases w@.len() - k,
    {
        if !name_char(w[k]) {
            assert(!is_name_char(name@[k as int]));
            return false;
        }
        k += 1;
    }
    if w.len() > n {
        assert forall|at: int| !#[trigger] named_at(s@, name@, at) by {}
        return false;
    }
    let last: usize = n - w.len();
    let mut at: usize = 0;
    let mut over = false;
    while !over
        invariant
            v@ == s@,
            w@ == name@,
            n == v@.len(),
            last == n - w@.len(),
            at <= last,
            forall|i: int| 0 <= i < name@.len() ==> is_name_char(#[trigger] name@[i]),
            forall|j: int|
                0 <= j < if over {
                    last + 1
                } else {
                    at as int
                } ==> !#[trigger] named_at(s@, name@, j),
        decreases last - at + if over { 0int } else { 1int },
    {
        let end: usize = at + w.len();
        if text::matches_at(&v, &w, at) && (at == 0 || !name_char(v[at - 1])) && (end == n
            || !name_char(v[end])) {
            assert(named_at(s@, name@, at as int));
            return true;
        }
        assert(!named_at(s@, name@, at as int));
        if at < last {
            at += 1;
        } else {
            over = true;
        }
    }
    assert forall|at: int| !#[trigger] named_at(s@, name@, at) by {}
    false
}

/// A message in which the kernel reports that it refused a module.
pub open spec fn is_refusal(s: Seq<char>) -> bool {
    text::has_part(s, "key was rejected"@) || text::has_part(s, "required key not available"@)
        || text::has_part(s, "loading of unsigned module is rejected"@) || text::has_part(
        s,
        "version magic"@,
    ) || text::has_part(s, "unknown symbol"@) || text::has_part(s, "failed to load"@)
}

/// Whether a message reports that a module could not be loaded.
pub open spec fn is_failure(message: Seq<char>, module: Seq<char>) -> bool {
    let s = text::replaced(text::lowered(message), '-', "_"@);
    names_word(s, module) && is_refusal(s)
}

/// The last of the first `n` messages that report a failure to load a module.
pub open spec fn failure_before(messages: Seq<Seq<char>>, module: Seq<char>, n: int) -> Option<
    Seq<char>,
>
    decreases n,
{
    if n <= 0 {
        None
    } else if is_failure(messages[n - 1], module) {
        Some(messages[n - 1])
    } else {
        failure_before(messages, module, n - 1)
    }
}

fn refusal(s: &str) -> (r: bool)
    ensures
        r == is_refusal(s@),
{
    text::contains(s, "key was rejected") || text::contains(s, "required key not available")
        || text::contains(s, "loading of unsigned module is rejected") || text::contains(
        s,
        "version magic",
    ) || text::contains(s, "unknown symbol") || text::contains(s, "failed to load")
}

/// The latest message that reports a failure to load a module.
pub fn failure_message<'a>(messages: &'a Vec<String>, module: &str) -> (r: Option<&'a String>)
    ensures
        match r {
            Some(m) => failure_before(texts(messages@), module@, messages@.len() as int) == Some(
                m@,
            ),
            None => failure_before(texts(messages@), module@, messages@.len() as int) is None,
        },
{
    let ghost all = texts(messages@);
    let mut i: usize = messages.len();
    while i > 0
        invariant
            all == texts(messages@),
            i <= messages@.len(),
            failure_before(all, module@, messages@.len() as int) == failure_before(
                all,
                module@,
                i as int,
            ),
        decreases i,
    {
        i -= 1;
        assert(all[i as int] == messages@[i as int]@);
        let s = text::replace(text::lower(messages[i].as_str()).as_str(), '-', "_");
        if holds_word(s.as_str(), module) && refusal(s.as_str()) {
            return Some(&messages[i]);
        }
    }
    None
}

/// A finding on a module that could not be examined.
pub open spec fn unavailable_of(module: Seq<char>, error: Seq<char>) -> FindingView {
    FindingView {
        code: "host.module."@ + module,
        state: CheckState::Unavailable,
        severity: FindingSeverity::Info,
        feature: "Optional desktop backend"@,
        context: "Host kernel"@,
        title: "Optional display module: "@ + module,
        evidence: error,
        remediation: "Check the host installation using the desktop backend guide. Hyprland needs no optional display module."@,
        guide: InstallationGuide::Troubleshooting,
    }
}

pub fn unavailable(module: &str, error: &str) -> (r: InstallationFinding)
    ensures
        r@ == unavailable_of(module@, error@),
{
    let mut code = "host.module.".to_owned();
    code.append(module);
    let mut title = "Optional display module: ".to_owned();
    title.append(module);
    InstallationFinding {
        code,
        state: CheckState::Unavailable,
        severity: FindingSeverity::Info,
        feature: "Optional desktop backend".to_owned(),
        context: "Host kernel".to_owned(),
        title,
        evidence: error.to_owned(),
        remediation: "Check the host installation using the desktop backend guide. Hyprland needs no optional display module.".to_owned(),
        guide: InstallationGuide::Troubleshooting,
    }
}

/// The verdict on a module: state, severity, evidence and remediation.
pub open spec fn verdict(
    module: Seq<char>,
    kernel: Seq<char>,
    loaded: bool,
    installed: FileView,
    registered: bool,
    headers: Option<bool>,
    failure: Option<Seq<char>>,
) -> FindingView {
    let plain = unavailable_of(module, ""@);
    if loaded {
        FindingView {
            state: CheckState::Passed,
            evidence: "Loaded in host kernel "@ + kernel
                + ". Output ownership, mode, capture and encoding are checked separately during desktop startup."@,
            remediation: ""@,
            ..plain
        }
    } else if failure is Some {
        FindingView {
            state: CheckState::Failed,
            severity: FindingSeverity::Warning,
            evidence: "Not loaded. Host kernel reported this during the current boot: "@
                + failure->0,
            remediation: "Review the host kernel log, then repair module compatibility or signing. Retry desktop mode after repair."@,
            ..plain
        }
    } else if registered && installed is Missing {
        FindingView {
            state: CheckState::Failed,
            severity: FindingSeverity::Warning,
            evidence: "DKMS lists "@ + module
                + ", but modinfo reports no installed module for host kernel "@ + kernel + "."@,
            remediation: if headers == Some(false) {
                "Matching host kernel build files are missing. Install the kernel development package, then repair the DKMS build using the host package instructions."@
            } else {
                "Review the host DKMS build log and finish installing the module for the running kernel."@
            },
            ..plain
        }
    } else {
        match installed {
            FileView::Installed(p) => FindingView {
                state: CheckState::Passed,
                evidence: "Installed for host kernel "@ + kernel + ": "@ + text::trimmed(p)
                    + ". Not loaded. This does not verify signing trust or desktop operation."@,
                remediation: "If this backend is needed, follow the host driver startup instructions."@,
                ..plain
            },
            FileView::Unverified(e) => FindingView { evidence: e, ..plain },
            FileView::Missing => FindingView {
                state: CheckState::NotApplicable,
                evidence: "Optional module is not installed for host kernel "@ + kernel + "."@,
                remediation: "Install this host driver only if you need its desktop backend. Hyprland uses native headless output."@,
                ..plain
            },
        }
    }
}

/// The failure that a readable journal reports.
pub open spec fn reported_failure(
    journal: Result<Seq<Seq<char>>, Seq<char>>,
    module: Seq<char>,
) -> Option<Seq<char>> {
    match journal {
        Ok(messages) => failure_before(messages, module, messages.len() as int),
        Err(_) => None,
    }
}

pub open spec fn classified(
    module: Seq<char>,
    kernel: Seq<char>,
    loaded: bool,
    installed: FileView,
    registered: bool,
    headers: Option<bool>,
    journal: Result<Seq<Seq<char>>, Seq<char>>,
) -> FindingView {
    let finding = verdict(
        module,
        kernel,
        loaded,
        installed,
        registered,
        headers,
        reported_failure(journal, module),
    );
    if !loaded && journal is Err {
        FindingView {
            evidence: finding.evidence
                + " Kernel load and signature errors could not be checked from this account."@,
            ..finding
        }
    } else {
        finding
    }
}

/// The finding on a module: whether it is loaded, installed and registered for building, whether the
/// files to build it are there, and what the kernel journal says.
pub fn classify(
    module: &str,
    kernel: &str,
    loaded: bool,
    installed: &ModuleFile,
    registered: bool,
    headers: Option<bool>,
    journal: &Result<Vec<String>, String>,
) -> (r: InstallationFinding)
    ensures
        r@ == classified(
            module@,
            kernel@,
            loaded,
            installed@,
            registered,
            headers,
            listed(*journal),
        ),
{
    let failure = match journal {
        Ok(messages) => {
            assert(texts(messages@).len() == messages@.len());
            failure_message(messages, module)
        },
        Err(_) => None,
    };
    let mut finding = unavailable(module, "");
    if loaded {
        finding.state = CheckState::Passed;
        let mut evidence = "Loaded in host kernel ".to_owned();
        evidence.append(kernel);
        evidence.append(
            ". Output ownership, mode, capture and encoding are checked separately during desktop startup.",
        );
        finding.evidence = evidence;
        finding.remediation = "".to_owned();
    } else if failure.is_some() {
        finding.state = CheckState::Failed;
        finding.severity = FindingSeverity::Warning;
        let mut evidence =
            "Not loaded. Host kernel reported this during the current boot: ".to_owned();
        evidence.append(failure.unwrap().as_str());
        finding.evidence = evidence;
        finding.remediation =
        "Review the host kernel log, then repair module compatibility or signing. Retry desktop mode after repair.".to_owned();
    } else {
        match installed {
            ModuleFile::Missing => {
                if registered {
                    finding.state = CheckState::Failed;
                    finding.severity = FindingSeverity::Warning;
                    let mut evidence = "DKMS lists ".to_owned();
                    evidence.append(module);
                    evidence.append(", but modinfo reports no installed module for host kernel ");
                    evidence.append(kernel);
                    evidence.append(".");
                    finding.evidence = evidence;
                    let missing = match headers {
                        Some(there) => !there,
                        None => false,
                    };
                    finding.remediation = if missing {
                        "Matching host kernel build files are missing. Install the kernel development package, then repair the DKMS build using the host package instructions.".to_owned()
                    } else {
                        "Review the host DKMS build log and finish installing the module for the running kernel.".to_owned()
                    };
                } else {
                    finding.state = CheckState::NotApplicable;
                    let mut evidence = "Optional module is not installed for host kernel ".to_owned();
                    evidence.append(kernel);
                    evidence.append(".");
                    finding.evidence = evidence;
                    finding.remediation =
                    "Install this host driver only if you need its desktop backend. Hyprland uses native headless output.".to_owned();
                }
            },
            ModuleFile::Installed(p) => {
                finding.state = CheckState::Passed;
                let mut evidence = "Installed for host kernel ".to_owned();
                evidence.append(kernel);
                evidence.append(": ");
                evidence.append(text::trim(p.as_str()).as_str());
                evidence.append(
                    ". Not loaded. This does not verify signing trust or desktop operation.",
                );
                finding.evidence = evidence;
                finding.remediation =
                "If this backend is needed, follow the host driver startup instructions.".to_owned();
            },
            ModuleFile::Unverified(e) => {
                finding.evidence = e.clone();
            },
        }
    }
    if !loaded && journal.is_err() {
        let mut evidence = finding.evidence.clone();
        evidence.append(
            " Kernel load and signature errors could not be checked from this account.",
        );
        finding.evidence = evidence;
    }
    finding
}

/// A character of a kernel release.
pub open spec fn is_release_char(c: char) -> bool {
    text::is_alphanumeric(c) || c == '.' || c == '_' || c == '+' || c == '-'
}

pub open spec fn is_release(s: Seq<char>) -> bool {
    0 < s.len() && text::byte_len(s) <= MAX_RELEASE && forall|i: int|
        0 <= i < s.len() ==> is_release_char(#[trigger] s[i])
}

/// The kernel release that the host printed.
pub fn kernel_release(printed: &str) -> (r: Result<String, String>)
    ensures
        match r {
            Ok(s) => s@ == text::trimmed(printed@) && is_release(s@),
            Err(e) => !is_release(text::trimmed(printed@)) && e@
                == "Host returned an invalid kernel release"@,
        },
{
    let s = text::trim(printed);
    let v = text::chars(s.as_str());
    if v.len() == 0 || text::len(s.as_str()) > MAX_RELEASE {
        return Err("Host returned an invalid kernel release".to_owned());
    }
    let mut i: usize = 0;
    while i < v.len()
        invariant
            v@ == s@,
            s@ == text::trimmed(printed@),
            i <= v@.len(),
            forall|j: int| 0 <= j < i ==> is_release_char(#[trigger] v@[j]),
        decreases v@.len() - i,
    {
        let c = v[i];
        if !(text::alphanumeric(c) || c == '.' || c == '_' || c == '+' || c == '-') {
            assert(!is_release_char(s@[i as int]));
            return Err("Host returned an invalid kernel release".to_owned());
        }
        i += 1;
    }
    Ok(s)
}

/// Whether a test on the host held: its exit code, and the words for any other than yes or no.
pub fn tested(code: Option<i32>, words: &str) -> (r: Result<bool, String>)
    ensures
        outcome(r) == match code {
            Some(0) => Ok(true),
            Some(1) => Ok(false),
            _ => Err(words@),
        },
{
    match code {
        Some(0) => Ok(true),
        Some(1) => Ok(false),
        _ => Err(words.to_owned()),
    }
}

/// Whether the files to build a module must be looked for.
pub fn needs_headers(registered: bool, installed: &ModuleFile) -> (r: bool)
    ensures
        r == (registered && installed@ is Missing),
{
    match installed {
        ModuleFile::Missing => registered,
        _ => false,
    }
}

/// The finding on a module that is not loaded, where `listing` is what the build system printed.
pub open spec fn absent_finding(
    module: Seq<char>,
    kernel: Seq<char>,
    installed: FileView,
    listing: Result<Seq<char>, Seq<char>>,
    headers: Option<bool>,
    journal: Result<Seq<Seq<char>>, Seq<char>>,
) -> FindingView {
    let registered = match listing {
        Ok(s) => registered_from(text::lines_of(s), module, 0),
        Err(_) => false,
    };
    let finding = classified(module, kernel, false, installed, registered, headers, journal);
    if listing is Err {
        FindingView {
            evidence: finding.evidence
                + " Host DKMS status is unavailable. Builds managed by another installer are not inspected."@,
            ..finding
        }
    } else {
        finding
    }
}

/// The text or error of a query.
pub open spec fn queried(r: Result<String, String>) -> Result<Seq<char>, Seq<char>> {
    match r {
        Ok(s) => Ok(s@),
        Err(e) => Err(e@),
    }
}

/// The finding on a module that is not loaded, where `listing` is what the build system printed.
pub fn inspect_absent(
    module: &str,
    kernel: &str,
    installed: &ModuleFile,
    listing: &Result<String, String>,
    headers: Option<bool>,
    journal: &Result<Vec<String>, String>,
) -> (r: InstallationFinding)
    ensures
        r@ == absent_finding(
            module@,
            kernel@,
            installed@,
            queried(*listing),
            headers,
            listed(*journal),
        ),
{
    let registered = match listing {
        Ok(s) => dkms_registered(s.as_str(), module),
        Err(_) => false,
    };
    let mut finding = classify(module, kernel, false, installed, registered, headers, journal);
    if listing.is_err() {
        let mut evidence = finding.evidence.clone();
        evidence.append(
            " Host DKMS status is unavailable. Builds managed by another installer are not inspected.",
        );
        finding.evidence = evidence;
    }
    finding
}

/// What the host is asked for, step by step, to examine one module.
#[derive(Clone, Copy, Debug, PartialEq, Eq, Structural)]
pub enum ModuleStep {
    TestLoaded,
    QueryFile,
    TestHeaders,
    Done,
}

/// The examination of one module.
pub struct ModuleCheck {
    pub module: String,
    pub kernel: String,
    pub step: ModuleStep,
    pub installed: ModuleFile,
    pub finding: InstallationFinding,
}

/// The examination ends with this finding.
pub open spec fn check_ends(before: ModuleCheck, after: ModuleCheck, finding: FindingView) -> bool {
    after == (ModuleCheck { step: ModuleStep::Done, finding: after.finding, ..before })
        && after.finding@ == finding
}

/// Whether the build system is known to list a module.
pub open spec fn is_listed(listing: Result<String, String>, module: Seq<char>) -> bool {
    match listing {
        Ok(s) => registered_from(text::lines_of(s@), module, 0),
        Err(_) => false,
    }
}

/// The words for an examination that takes too long.
pub open spec fn late_words() -> Seq<char> {
    "Module checks reached their time limit"@
}

/// The text that a query of the host gives.
pub open spec fn query_of(
    program: Seq<char>,
    late: bool,
    output: Result<Output, String>,
) -> Result<Seq<char>, Seq<char>> {
    if late {
        Err(late_words())
    } else {
        match output {
            Err(e) => Err(e@),
            Ok(o) => if o.code == Some(0i32) {
                Ok(o.stdout@)
            } else {
                Err(program + ": "@ + text::trimmed(o.stderr@))
            },
        }
    }
}

/// The text that a query of the host gives.
pub fn query(program: &str, elapsed_ms: u64, output: &Result<Output, String>) -> (r: Result<
    String,
    String,
>)
    ensures
        queried(r) == query_of(program@, elapsed_ms >= CHECKS_MS, *output),
{
    let late = elapsed_ms >= CHECKS_MS;
    if late {
        return Err("Module checks reached their time limit".to_owned());
    }
    match output {
        Err(e) => Err(e.clone()),
        Ok(o) => {
            if o.success() {
                return Ok(o.stdout.clone());
            }
            let mut e = program.to_owned();
            e.append(": ");
            e.append(text::trim(o.stderr.as_str()).as_str());
            Err(e)
        },
    }
}

/// The journal, by what the query for it gave.
pub fn journal(text: &Result<String, String>) -> (r: Result<Vec<String>, String>)
    ensures
        listed(r) == match *text {
            Ok(s) => texts_from(text::lines_of(s@), counted(text::lines_of(s@))),
            Err(e) => Err(e@),
        },
{
    match text {
        Ok(s) => journal_messages(s.as_str()),
        Err(e) => Err(e.clone()),
    }
}

impl ModuleCheck {
    pub fn begin(module: &str, kernel: &str) -> (r: ModuleCheck)
        ensures
            r.module@ == module@,
            r.kernel@ == kernel@,
            r.step == ModuleStep::TestLoaded,
            r.installed@ == FileView::Missing,
            r.finding@ == unavailable_of(module@, ""@),
    {
        ModuleCheck {
            module: module.to_owned(),
            kernel: kernel.to_owned(),
            step: ModuleStep::TestLoaded,
            installed: ModuleFile::Missing,
            finding: unavailable(module, ""),
        }
    }

    /// A step could not be done.
    pub fn failed(&mut self, reason: &str)
        ensures
            check_ends(
                *old(self),
                *final(self),
                unavailable_of(old(self).module@, reason@),
            ),
    {
        self.finding = unavailable(self.module.as_str(), reason);
        self.step = ModuleStep::Done;
    }

    /// Whether the module is loaded: the exit code of a test on the host.
    pub fn loaded(
        &mut self,
        elapsed_ms: u64,
        code: &Result<Option<i32>, String>,
        journal: &Result<Vec<String>, String>,
    )
        requires
            old(self).step == ModuleStep::TestLoaded,
        ensures
            if elapsed_ms >= CHECKS_MS {
                check_ends(
                    *old(self),
                    *final(self),
                    unavailable_of(old(self).module@, late_words()),
                )
            } else {
                match *code {
                    Err(e) => check_ends(
                        *old(self),
                        *final(self),
                        unavailable_of(old(self).module@, e@),
                    ),
                    Ok(Some(0)) => check_ends(
                        *old(self),
                        *final(self),
                        classified(
                            old(self).module@,
                            old(self).kernel@,
                            true,
                            FileView::Missing,
                            false,
                            None,
                            listed(*journal),
                        ),
                    ),
                    Ok(Some(1)) => *final(self) == (ModuleCheck {
                        step: ModuleStep::QueryFile,
                        ..*old(self)
                    }),
                    _ => check_ends(
                        *old(self),
                        *final(self),
                        unavailable_of(old(self).module@, "Cannot inspect loaded host modules"@),
                    ),
                }
            },
    {
        let late = elapsed_ms >= CHECKS_MS;
        if late {
            self.failed("Module checks reached their time limit");
            return;
        }
        match code {
            Err(e) => {
                self.failed(e.as_str());
            },
            Ok(code) => match tested(*code, "Cannot inspect loaded host modules") {
                Err(e) => {
                    self.failed(e.as_str());
                },
                Ok(true) => {
                    self.finding = classify(
                        self.module.as_str(),
                        self.kernel.as_str(),
                        true,
                        &ModuleFile::Missing,
                        false,
                        None,
                        journal,
                    );
                    self.step = ModuleStep::Done;
                },
                Ok(false) => {
                    self.step = ModuleStep::QueryFile;
                },
            },
        }
    }

    /// Where the module is installed, by what the host's module tool gave.
    pub fn file(
        &mut self,
        elapsed_ms: u64,
        output: &Result<Output, String>,
        listing: &Result<String, String>,
        journal: &Result<Vec<String>, String>,
    )
        requires
            old(self).step == ModuleStep::QueryFile,
        ensures
            if elapsed_ms >= CHECKS_MS {
                check_ends(
                    *old(self),
                    *final(self),
                    unavailable_of(old(self).module@, late_words()),
                )
            } else if is_listed(*listing, old(self).module@) && module_file_of(
                *output,
                old(self).module@,
            ) is Missing {
                *final(self) == (ModuleCheck {
                    step: ModuleStep::TestHeaders,
                    installed: final(self).installed,
                    ..*old(self)
                }) && final(self).installed@ is Missing
            } else {
                check_ends(
                    (ModuleCheck { installed: final(self).installed, ..*old(self) }),
                    *final(self),
                    absent_finding(
                        old(self).module@,
                        old(self).kernel@,
                        module_file_of(*output, old(self).module@),
                        queried(*listing),
                        None,
                        listed(*journal),
                    ),
                ) && final(self).installed@ == module_file_of(*output, old(self).module@)
            },
    {
        let late = elapsed_ms >= CHECKS_MS;
        if late {
            self.failed("Module checks reached their time limit");
            return;
        }
        self.installed = module_file(output, self.module.as_str());
        let registered = match listing {
            Ok(s) => dkms_registered(s.as_str(), self.module.as_str()),
            Err(_) => false,
        };
        if needs_headers(registered, &self.installed) {
            self.step = ModuleStep::TestHeaders;
        } else {
            self.finding = inspect_absent(
                self.module.as_str(),
                self.kernel.as_str(),
                &self.installed,
                listing,
                None,
                journal,
            );
            self.step = ModuleStep::Done;
        }
    }

    /// Whether the files to build the module are there: the exit code of a test on the host.
    pub fn headers(
        &mut self,
        elapsed_ms: u64,
        code: &Result<Option<i32>, String>,
        listing: &Result<String, String>,
        journal: &Result<Vec<String>, String>,
    )
        requires
            old(self).step == ModuleStep::TestHeaders,
        ensures
            if elapsed_ms >= CHECKS_MS {
                check_ends(
                    *old(self),
                    *final(self),
                    unavailable_of(old(self).module@, late_words()),
                )
            } else {
                match *code {
                    Err(e) => check_ends(
                        *old(self),
                        *final(self),
                        unavailable_of(old(self).module@, e@),
                    ),
                    Ok(code) => if code == Some(0i32) || code == Some(1i32) {
                        check_ends(
                            *old(self),
                            *final(self),
                            absent_finding(
                                old(self).module@,
                                old(self).kernel@,
                                old(self).installed@,
                                queried(*listing),
                                Some(code == Some(0i32)),
                                listed(*journal),
                            ),
                        )
                    } else {
                        check_ends(
                            *old(self),
                            *final(self),
                            unavailable_of(
                                old(self).module@,
                                "Cannot inspect host kernel build files"@,
                            ),
                        )
                    },
                }
            },
    {
        let late = elapsed_ms >= CHECKS_MS;
        if late {
            self.failed("Module checks reached their time limit");
            return;
        }
        match code {
            Err(e) => {
                self.failed(e.as_str());
            },
            Ok(code) => match tested(*code, "Cannot inspect host kernel build files") {
                Err(e) => {
                    self.failed(e.as_str());
                },
                Ok(there) => {
                    self.finding = inspect_absent(
                        self.module.as_str(),
                        self.kernel.as_str(),
                        &self.installed,
                        listing,
                        Some(there),
                        journal,
                    );
                    self.step = ModuleStep::Done;
                },
            },
        }
    }
}

/// A module that is loaded passes, whatever an earlier failure left in the journal.
pub proof fn loaded_modules_pass(
    module: Seq<char>,
    kernel: Seq<char>,
    installed: FileView,
    registered: bool,
    headers: Option<bool>,
    journal: Result<Seq<Seq<char>>, Seq<char>>,
)
    ensures
        classified(module, kernel, true, installed, registered, headers, journal).state
            == CheckState::Passed,
{
}

/// A module whose file could not be examined is neither called missing nor failed, unless the journal
/// reports a failure.
pub proof fn unverified_modules_are_not_blamed(
    module: Seq<char>,
    kernel: Seq<char>,
    error: Seq<char>,
    registered: bool,
    headers: Option<bool>,
    journal: Result<Seq<Seq<char>>, Seq<char>>,
)
    requires
        reported_failure(journal, module) is None,
    ensures
        classified(
            module,
            kernel,
            false,
            FileView::Unverified(error),
            registered,
            headers,
            journal,
        ).state == CheckState::Unavailable,
        classified(
            module,
            kernel,
            false,
            FileView::Unverified(error),
            registered,
            headers,
            journal,
        ).severity == FindingSeverity::Info,
{
}

/// The arguments for the modules that are registered for a kernel.
pub open spec fn dkms_arguments_of(kernel: Seq<char>) -> Seq<Seq<char>> {
    seq![
        "status"@,
        "-k"@,
        kernel,
    ]
}

pub fn dkms_arguments(kernel: &str) -> (r: Vec<String>)
    ensures
        texts(r@) == dkms_arguments_of(kernel@),
{
    let mut r: Vec<String> = Vec::new();
    r.push("status".to_owned());
    r.push("-k".to_owned());
    r.push(kernel.to_owned());
    assert(texts(r@) =~= dkms_arguments_of(kernel@));
    r
}

/// The arguments for what the kernel said of the modules since it started.
pub open spec fn journal_arguments_of() -> Seq<Seq<char>> {
    seq![
        "--kernel"@,
        "--boot=0"@,
        "--quiet"@,
        "--no-pager"@,
        "--lines=80"@,
        "--grep=(?i)(evdi|hermes[-_]kms)"@,
        "--output=json"@,
        "--output-fields=MESSAGE"@,
    ]
}

pub fn journal_arguments() -> (r: Vec<String>)
    ensures
        texts(r@) == journal_arguments_of(),
{
    let mut r: Vec<String> = Vec::new();
    r.push("--kernel".to_owned());
    r.push("--boot=0".to_owned());
    r.push("--quiet".to_owned());
    r.push("--no-pager".to_owned());
    r.push("--lines=80".to_owned());
    r.push("--grep=(?i)(evdi|hermes[-_]kms)".to_owned());
    r.push("--output=json".to_owned());
    r.push("--output-fields=MESSAGE".to_owned());
    assert(texts(r@) =~= journal_arguments_of());
    r
}

/// The arguments that ask whether a module is loaded.
pub open spec fn loaded_arguments_of(module: Seq<char>) -> Seq<Seq<char>> {
    seq![
        "-d"@,
        "/sys/module/"@ + module,
    ]
}

pub fn loaded_arguments(module: &str) -> (r: Vec<String>)
    ensures
        texts(r@) == loaded_arguments_of(module@),
{
    let mut r: Vec<String> = Vec::new();
    r.push("-d".to_owned());
    r.push(text::worded("/sys/module/", module));
    assert(texts(r@) =~= loaded_arguments_of(module@));
    r
}

/// The arguments for the file of a module.
pub open spec fn file_arguments_of(kernel: Seq<char>, module: Seq<char>) -> Seq<Seq<char>> {
    seq![
        "-k"@,
        kernel,
        "-F"@,
        "filename"@,
        module,
    ]
}

pub fn file_arguments(kernel: &str, module: &str) -> (r: Vec<String>)
    ensures
        texts(r@) == file_arguments_of(kernel@, module@),
{
    let mut r: Vec<String> = Vec::new();
    r.push("-k".to_owned());
    r.push(kernel.to_owned());
    r.push("-F".to_owned());
    r.push("filename".to_owned());
    r.push(module.to_owned());
    assert(texts(r@) =~= file_arguments_of(kernel@, module@));
    r
}

/// The file that a kernel's build files have.
pub open spec fn build_of(kernel: Seq<char>) -> Seq<char> {
    "/lib/modules/"@ + kernel + "/build/Makefile"@
}

fn build_file(kernel: &str) -> (r: String)
    ensures
        r@ == build_of(kernel@),
{
    let mut r = text::worded("/lib/modules/", kernel);
    r.append("/build/Makefile");
    r
}

/// The arguments that ask whether the build files of a kernel are there.
pub open spec fn header_arguments_of(kernel: Seq<char>) -> Seq<Seq<char>> {
    seq![
        "-f"@,
        build_of(kernel),
    ]
}

pub fn header_arguments(kernel: &str) -> (r: Vec<String>)
    ensures
        texts(r@) == header_arguments_of(kernel@),
{
    let mut r: Vec<String> = Vec::new();
    r.push("-f".to_owned());
    r.push(build_file(kernel));
    assert(texts(r@) =~= header_arguments_of(kernel@));
    r
}

/// The modules that are examined, in their order.
pub open spec fn modules_of() -> Seq<Seq<char>> {
    seq!["hermes_kms"@, "evdi"@]
}

/// The kernel of the host, by what the query for it gave.
pub open spec fn kernel_of(elapsed_ms: u64, output: Result<Output, String>) -> Result<
    Seq<char>,
    Seq<char>,
> {
    match query_of("/usr/bin/uname"@, elapsed_ms >= CHECKS_MS, output) {
        Err(e) => Err(e),
        Ok(s) => if is_release(text::trimmed(s)) {
            Ok(text::trimmed(s))
        } else {
            Err("Host returned an invalid kernel release"@)
        },
    }
}

pub fn kernel(elapsed_ms: u64, output: &Result<Output, String>) -> (r: Result<String, String>)
    ensures
        queried(r) == kernel_of(elapsed_ms, *output),
{
    let printed = query("/usr/bin/uname", elapsed_ms, output)?;
    kernel_release(printed.as_str())
}

/// Begins the examinations on a kernel: one of each module, in their order.
pub fn begin_checks(kernel: &str) -> (r: Vec<ModuleCheck>)
    ensures
        r@.len() == modules_of().len(),
        forall|i: int|
            0 <= i < r@.len() ==> (#[trigger] r@[i]).module@ == modules_of()[i] && r@[i].kernel@
                == kernel@ && r@[i].step == ModuleStep::TestLoaded,
{
    let mut r: Vec<ModuleCheck> = Vec::new();
    r.push(ModuleCheck::begin("hermes_kms", kernel));
    r.push(ModuleCheck::begin("evdi", kernel));
    r
}

/// The findings on the optional modules of a host: `kernel` is the host's kernel, or why the whole
/// examination was given up, and `checks` are the examinations on it, each at its end.
pub fn collect(kernel: &Result<String, String>, checks: Vec<ModuleCheck>) -> (r: Vec<
    InstallationFinding,
>)
    requires
        kernel matches Ok(k) ==> checks@.len() == modules_of().len() && forall|i: int|
            0 <= i < checks@.len() ==> (#[trigger] checks@[i]).module@ == modules_of()[i]
                && checks@[i].kernel@ == k@ && checks@[i].step == ModuleStep::Done,
    ensures
        match *kernel {
            Err(e) => r@.len() == 1 && r@[0]@ == unavailable_of("modules"@, e@),
            Ok(_) => r@.len() == modules_of().len() && forall|i: int|
                0 <= i < r@.len() ==> (#[trigger] r@[i])@ == checks@[i].finding@,
        },
{
    let mut r: Vec<InstallationFinding> = Vec::new();
    match kernel {
        Err(e) => {
            r.push(unavailable("modules", e.as_str()));
            r
        },
        Ok(_) => {
            let mut left = checks;
            let second = left.pop();
            let first = left.pop();
            match first {
                Some(check) => {
                    r.push(check.finding);
                },
                None => {},
            }
            match second {
                Some(check) => {
                    r.push(check.finding);
                },
                None => {},
            }
            r
        },
    }
}

/// A module passes exactly where it is loaded, or is installed and the kernel did not refuse it. It
/// fails where the kernel refused it, or where it is registered to be built and there is no module.
/// It does not apply where nothing of it is there, and is open where that could not be found out.
pub proof fn modules_are_judged_by_what_is_there(
    module: Seq<char>,
    kernel: Seq<char>,
    loaded: bool,
    installed: FileView,
    registered: bool,
    headers: Option<bool>,
    journal: Result<Seq<Seq<char>>, Seq<char>>,
)
    ensures
        ({
            let found = classified(module, kernel, loaded, installed, registered, headers, journal);
            let refused = journal is Ok && exists|i: int|
                0 <= i < journal->Ok_0.len() && is_failure(#[trigger] journal->Ok_0[i], module);
            &&& found.state == CheckState::Passed <==> loaded || (!refused && installed is Installed)
            &&& found.state == CheckState::Failed <==> !loaded && (refused || (registered
                && installed is Missing))
            &&& found.state == CheckState::NotApplicable <==> !loaded && !refused && !registered
                && installed is Missing
            &&& found.state == CheckState::Unavailable <==> !loaded && !refused
                && installed is Unverified
            &&& found.severity == FindingSeverity::Warning <==> found.state == CheckState::Failed
            &&& found.severity == FindingSeverity::Info <==> found.state != CheckState::Failed
            &&& found.code == "host.module."@ + module
        }),
{
    if journal is Ok {
        failures_are_found(journal->Ok_0, module, journal->Ok_0.len() as int);
    }
}

/// A failure is reported exactly where one of the messages is one, and it is the last of those.
pub proof fn failures_are_found(messages: Seq<Seq<char>>, module: Seq<char>, n: int)
    requires
        0 <= n <= messages.len(),
    ensures
        failure_before(messages, module, n) is Some <==> exists|i: int|
            0 <= i < n && is_failure(#[trigger] messages[i], module),
        failure_before(messages, module, n) is Some ==> exists|i: int|
            0 <= i < n && is_failure(#[trigger] messages[i], module) && failure_before(
                messages,
                module,
                n,
            ) == Some(messages[i]) && forall|k: int|
                i < k < n ==> !is_failure(#[trigger] messages[k], module),
    decreases n,
{
    if n > 0 {
        failures_are_found(messages, module, n - 1);
        if is_failure(messages[n - 1], module) {
            assert(failure_before(messages, module, n) == Some(messages[n - 1]));
        } else if failure_before(messages, module, n - 1) is Some {
            let i = choose|i: int|
                0 <= i < n - 1 && is_failure(#[trigger] messages[i], module) && failure_before(
                    messages,
                    module,
                    n - 1,
                ) == Some(messages[i]) && forall|k: int|
                    i < k < n - 1 ==> !is_failure(#[trigger] messages[k], module);
            assert(is_failure(messages[i], module));
        }
    }
}

/// The build system knows a module exactly where some line has its name before the first slash, with
/// dashes for underscores or without.
pub proof fn modules_are_registered_by_some_line(lines: Seq<Seq<char>>, module: Seq<char>, i: int)
    requires
        0 <= i,
    ensures
        registered_from(lines, module, i) <==> exists|k: int|
            i <= k < lines.len() && (text::split_once_spec(#[trigger] lines[k], '/') matches Some(
                (name, _),
            ) && text::replaced(name, '-', "_"@) == module),
    decreases lines.len() - i,
{
    if i < lines.len() {
        modules_are_registered_by_some_line(lines, module, i + 1);
        if lists_module(lines[i], module) {
            assert(text::split_once_spec(lines[i], '/') is Some);
        }
    }
}

/// A module is installed where the query gave a file, missing only where the kernel's own words say
/// so, and open in all other cases.
pub proof fn modules_are_missing_only_where_that_is_said(
    output: Result<Output, String>,
    module: Seq<char>,
)
    ensures
        ({
            let found = module_file_of(output, module);
            let printed = text::trimmed(output->Ok_0.stdout@);
            let there = output is Ok && output->Ok_0.code == Some(0i32) && printed.len() > 0;
            &&& found is Installed <==> there
            &&& there ==> found == FileView::Installed(printed)
            &&& found is Missing <==> output is Ok && !there && text::has_part(
                output->Ok_0.stderr@,
                "Module "@ + module + " not found"@,
            )
        }),
{
}

/// A query gives what was printed exactly where it came in time and succeeded.
pub proof fn queries_give_what_was_printed(
    program: Seq<char>,
    late: bool,
    output: Result<Output, String>,
)
    ensures
        query_of(program, late, output) is Ok <==> !late && output is Ok && output->Ok_0.code
            == Some(0i32),
        query_of(program, late, output) is Ok ==> query_of(program, late, output)->Ok_0
            == output->Ok_0.stdout@,
{
}

/// The kernel's refusals are exactly these words, and a message is about a module exactly where it
/// names it as a word, whatever the case and with dashes for underscores.
pub proof fn refusals_name_the_module(message: Seq<char>, module: Seq<char>)
    ensures
        is_failure(message, module) <==> {
            let s = text::replaced(text::lowered(message), '-', "_"@);
            &&& names_word(s, module)
            &&& {
                ||| text::has_part(s, "key was rejected"@)
                ||| text::has_part(s, "required key not available"@)
                ||| text::has_part(s, "loading of unsigned module is rejected"@)
                ||| text::has_part(s, "version magic"@)
                ||| text::has_part(s, "unknown symbol"@)
                ||| text::has_part(s, "failed to load"@)
            }
        },
{
}

/// A name stands in a text as a word exactly where it stands there with nothing of a name before or
/// after it.
pub proof fn words_stand_alone(s: Seq<char>, name: Seq<char>)
    requires
        forall|i: int|
            0 <= i < name.len() ==> text::is_alphanumeric(#[trigger] name[i]) || name[i] == '_',
    ensures
        names_word(s, name) <==> exists|at: int|
            #[trigger] text::occurs_at(s, name, at) && (at > 0 ==> !(text::is_alphanumeric(s[at - 1])
                || s[at - 1] == '_')) && (at + name.len() < s.len() ==> !(text::is_alphanumeric(
                s[at + name.len()],
            ) || s[at + name.len()] == '_')),
{
    assert forall|i: int| 0 <= i < name.len() implies is_name_char(#[trigger] name[i]) by {}
    if names_word(s, name) {
        let at = choose|at: int| #[trigger] named_at(s, name, at);
        assert(text::occurs_at(s, name, at));
    }
    if exists|at: int|
        #[trigger] text::occurs_at(s, name, at) && (at > 0 ==> !(text::is_alphanumeric(s[at - 1])
            || s[at - 1] == '_')) && (at + name.len() < s.len() ==> !(text::is_alphanumeric(
            s[at + name.len()],
        ) || s[at + name.len()] == '_')) {
        let at = choose|at: int|
            #[trigger] text::occurs_at(s, name, at) && (at > 0 ==> !(text::is_alphanumeric(
                s[at - 1],
            ) || s[at - 1] == '_')) && (at + name.len() < s.len() ==> !(text::is_alphanumeric(
                s[at + name.len()],
            ) || s[at + name.len()] == '_'));
        assert(named_at(s, name, at));
    }
}

/// The messages of the kernel are those of the first 81 records, in their order, exactly where each of
/// them is text.
pub proof fn kernel_messages_are_read_in_order(lines: Seq<Seq<char>>, n: int, i: int)
    requires
        0 <= i < n <= lines.len(),
    ensures
        texts_from(lines, n) is Ok <==> forall|k: int|
            0 <= k < n ==> record_text(parsed(#[trigger] lines[k])) is Ok,
        texts_from(lines, n) is Ok ==> texts_from(lines, n)->Ok_0.len() == n && texts_from(
            lines,
            n,
        )->Ok_0[i] == record_text(parsed(lines[i]))->Ok_0,
        counted(lines) == (if lines.len() < 81 {
            lines.len() as int
        } else {
            81
        }),
    decreases n,
{
    if n == 1 {
        assert(texts_from(lines, 0) == Ok::<Seq<Seq<char>>, Seq<char>>(Seq::empty()));
    } else if i < n - 1 {
        kernel_messages_are_read_in_order(lines, n - 1, i);
    } else {
        kernel_messages_are_read_in_order(lines, n - 1, 0);
    }
}

/// A record gives its message exactly where it can be read and its message is text.
pub proof fn kernel_records_give_their_message(record: Result<Json, Seq<char>>, s: Seq<char>)
    ensures
        record_text(record) == Ok::<Seq<char>, Seq<char>>(s) <==> record is Ok && member(
            record->Ok_0,
            "MESSAGE"@,
        ) == Some(Json::Text(s)),
{
}

/// A kernel release is a short text of letters, digits and a few signs. The kernel is known exactly
/// where the query for it gave one in time.
pub proof fn kernels_are_known_by_their_release(elapsed_ms: u64, output: Result<Output, String>)
    ensures
        ({
            let found = kernel_of(elapsed_ms, output);
            let printed = text::trimmed(output->Ok_0.stdout@);
            &&& found is Ok <==> {
                &&& elapsed_ms < 10_000
                &&& output is Ok
                &&& output->Ok_0.code == Some(0i32)
                &&& printed.len() > 0
                &&& text::byte_len(printed) <= 128
                &&& forall|i: int|
                    0 <= i < printed.len() ==> text::is_alphanumeric(#[trigger] printed[i])
                        || printed[i] == '.' || printed[i] == '_' || printed[i] == '+' || printed[i]
                        == '-'
            }
            &&& found is Ok ==> found->Ok_0 == printed
        }),
{
    let printed = text::trimmed(output->Ok_0.stdout@);
    if is_release(printed) {
        assert forall|i: int| 0 <= i < printed.len() implies text::is_alphanumeric(
            #[trigger] printed[i],
        ) || printed[i] == '.' || printed[i] == '_' || printed[i] == '+' || printed[i] == '-' by {
            assert(is_release_char(printed[i]));
        }
    }
}

/// A module that is not loaded is judged as one that the build system lists exactly where that could be
/// asked and does.
pub proof fn absent_modules_are_judged_by_the_listing(
    module: Seq<char>,
    kernel: Seq<char>,
    installed: FileView,
    listing: Result<Seq<char>, Seq<char>>,
    headers: Option<bool>,
    journal: Result<Seq<Seq<char>>, Seq<char>>,
)
    ensures
        ({
            let found = absent_finding(module, kernel, installed, listing, headers, journal);
            let listed_there = listing is Ok && registered_from(
                text::lines_of(listing->Ok_0),
                module,
                0,
            );
            let judged = classified(
                module,
                kernel,
                false,
                installed,
                listed_there,
                headers,
                journal,
            );
            &&& found.state == judged.state
            &&& found.severity == judged.severity
            &&& found.code == judged.code
            &&& listing is Ok ==> found == judged
        }),
{
}

/// Both modules are examined, and each is asked for by its own name, for the kernel that runs.
pub proof fn modules_are_asked_for_by_name(kernel: Seq<char>, module: Seq<char>)
    ensures
        modules_of().len() == 2,
        modules_of().contains("evdi"@),
        modules_of().contains("hermes_kms"@),
        loaded_arguments_of(module).last() == "/sys/module/"@ + module,
        file_arguments_of(kernel, module).last() == module,
        file_arguments_of(kernel, module)[1] == kernel,
        dkms_arguments_of(kernel).last() == kernel,
        header_arguments_of(kernel).last() == "/lib/modules/"@ + kernel + "/build/Makefile"@,
{
    assert(modules_of()[1] == "evdi"@);
    assert(modules_of()[0] == "hermes_kms"@);
}

} // verus!
