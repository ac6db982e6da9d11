//! Submitting a managed import to the user's service manager, and running it there with an
//! administrator's authorization.

use crate::account;
use crate::command::{ended, left_by, ran_within, said, Output, Ran, Run, RunStep, LARGEST_OUTPUT};
use crate::container_destination::complaint;
use crate::files::{FileKind, Metadata};
use crate::media_import::{same_published, PublishedSelection};
use crate::media_import_job::{tells, Job, JobStep, Status};
use crate::media_import_launch::{result_complaint, validate_result};
use crate::media_ownership::valid_id;
use crate::media_publication::{directory_complaint, open_directory};
use crate::media_validation::AssetDependency;
use crate::path;
use crate::services::ServiceScope;
use crate::steps;
use crate::text;
use crate::text::outcome;
use crate::text::texts;
use vstd::prelude::*;

verus! {

/// How long an authorized import may take, in milliseconds.
pub const EXECUTE_MS: u64 = 780_000;

/// The longest path of a request, in bytes.
pub const MAX_PATH: usize = 4096;

/// The most request files that may be kept.
pub const MAX_REQUESTS: usize = 33;

/// The longest error of a helper that is passed on, in characters.
pub const MAX_ERROR: usize = 2048;

pub open spec fn start_complaint(native: bool, active: bool) -> Option<Seq<char>> {
    if !native {
        Some("Start managed imports from the native application"@)
    } else if active {
        Some("A managed import is already active"@)
    } else {
        None
    }
}

/// Whether an import may be submitted now.
pub fn check_start(native: bool, status: &Option<Status>) -> (r: Result<(), String>)
    ensures
        complaint(r) == start_complaint(native, *status is Some && (*status)->0.active),
{
    if !native {
        return Err("Start managed imports from the native application".to_owned());
    }
    let active = match status {
        Some(status) => status.active,
        None => false,
    };
    if active {
        Err("A managed import is already active".to_owned())
    } else {
        Ok(())
    }
}

pub open spec fn requests_complaint(m: Metadata, uid: u32, entries: usize) -> Option<Seq<char>> {
    if directory_complaint(m, uid) is Some {
        directory_complaint(m, uid)
    } else if m.mode & 0o077 != 0 {
        Some("Import request directory must be private"@)
    } else if entries > MAX_REQUESTS {
        Some("Too many retained import request files; inspect pending imports before retrying"@)
    } else {
        None
    }
}

/// The directory of requests, with the number of its entries.
pub fn check_requests(m: &Metadata, uid: u32, entries: usize) -> (r: Result<(), String>)
    ensures
        complaint(r) == requests_complaint(*m, uid, entries),
{
    open_directory(m, uid)?;
    if m.mode & 0o077 != 0 {
        return Err("Import request directory must be private".to_owned());
    }
    if entries > MAX_REQUESTS {
        return Err(
            "Too many retained import request files; inspect pending imports before retrying".to_owned(),
        );
    }
    Ok(())
}

/// The file of a request.
pub open spec fn request_of(id: Seq<char>) -> Seq<char> {
    "selection-"@ + id + ".json"@
}

pub fn request_name(id: &str) -> (r: String)
    ensures
        r@ == request_of(id@),
{
    let mut r = "selection-".to_owned();
    r.append(id);
    r.append(".json");
    r
}

pub open spec fn submission_of(output: Result<Output, String>) -> Option<Seq<char>> {
    match output {
        Err(e) => Some(
            "Import submission was not confirmed; check progress before retrying. The request was retained: "@
                + e@,
        ),
        Ok(o) => if o.code == Some(0i32) {
            None
        } else {
            Some(
                "Cannot submit import worker: "@ + text::cut(o.stderr@, MAX_ERROR as int)
                    + ". Check progress before retrying; the request was retained"@,
            )
        },
    }
}

/// What came of the submission.
pub fn check_submission(output: &Result<Output, String>) -> (r: Result<(), String>)
    ensures
        complaint(r) == submission_of(*output),
{
    match output {
        Err(e) => {
            let mut text = "Import submission was not confirmed; check progress before retrying. The request was retained: ".to_owned();
            text.append(e.as_str());
            Err(text)
        },
        Ok(o) => {
            if o.success() {
                return Ok(());
            }
            let mut text = "Cannot submit import worker: ".to_owned();
            text.append(text::take(o.stderr.as_str(), MAX_ERROR).as_str());
            text.append(". Check progress before retrying; the request was retained");
            Err(text)
        },
    }
}

pub open spec fn request_complaint(
    selection: Seq<char>,
    config: Seq<char>,
    id: Seq<char>,
) -> Option<Seq<char>> {
    if !valid_id(id) {
        Some("Invalid import identity"@)
    } else if !(path::is_absolute(selection) && path::is_absolute(config) && text::byte_len(
        selection,
    ) <= MAX_PATH && text::byte_len(config) <= MAX_PATH) {
        Some("Managed import paths must be absolute and at most 4096 bytes"@)
    } else {
        None
    }
}

/// What names a request on a command line.
pub open spec fn request_arguments(
    scope: ServiceScope,
    selection: Seq<char>,
    config: Seq<char>,
    id: Seq<char>,
) -> Seq<Seq<char>> {
    seq![
        "--scope"@,
        scope.word_spec(),
        "--selection"@,
        selection,
        "--expected-config"@,
        config,
        "--operation-id"@,
        id,
    ]
}

/// The arguments of the authorization helper.
pub open spec fn authorization_of(
    scope: ServiceScope,
    selection: Seq<char>,
    config: Seq<char>,
    id: Seq<char>,
) -> Seq<Seq<char>> {
    seq!["--disable-internal-agent"@, "/usr/bin/lianli-control"@, "import-selected-media"@]
        + request_arguments(scope, selection, config, id)
}

/// The program that asks for an administrator's authorization.
pub fn authorization_program() -> (r: &'static str)
    ensures
        r@ == "/usr/bin/pkexec"@,
{
    "/usr/bin/pkexec"
}

pub fn authorization_arguments(scope: ServiceScope, selection: &str, config: &str, id: &str) -> (r:
    Result<Vec<String>, String>)
    ensures
        match r {
            Ok(args) => request_complaint(selection@, config@, id@) is None && texts(args@)
                == authorization_of(scope, selection@, config@, id@),
            Err(e) => request_complaint(selection@, config@, id@) == Some(e@),
        },
{
    if !text::is_hex_of_len(id, 32) {
        return Err("Invalid import identity".to_owned());
    }
    if !(path::absolute(selection) && path::absolute(config) && text::len(selection) <= MAX_PATH
        && text::len(config) <= MAX_PATH) {
        return Err("Managed import paths must be absolute and at most 4096 bytes".to_owned());
    }
    let mut args: Vec<String> = Vec::new();
    args.push("--disable-internal-agent".to_owned());
    args.push("/usr/bin/lianli-control".to_owned());
    args.push("import-selected-media".to_owned());
    args.push("--scope".to_owned());
    args.push(scope.word().to_owned());
    args.push("--selection".to_owned());
    args.push(selection.to_owned());
    args.push("--expected-config".to_owned());
    args.push(config.to_owned());
    args.push("--operation-id".to_owned());
    args.push(id.to_owned());
    assert(texts(args@) =~= authorization_of(scope, selection@, config@, id@));
    Ok(args)
}

/// An argument as the manager must be given it: it expands dollars and percent signs, and two stand
/// for one.
pub open spec fn escaped(s: Seq<char>) -> Seq<char> {
    text::replaced(text::replaced(s, '$', "$$"@), '%', "%%"@)
}

/// The options of the manager under which an import runs, with the command.
pub open spec fn manager_options() -> Seq<Seq<char>> {
    seq![
        "--user"@,
        "--quiet"@,
        "--collect"@,
        "--no-ask-password"@,
        "--unit=lianli-media-import.service"@,
        "--property=Type=exec"@,
        "--property=Restart=no"@,
        "--property=KillMode=control-group"@,
        "--property=RuntimeMaxSec=840s"@,
        "--property=TimeoutStopSec=10s"@,
        "--property=StandardInput=null"@,
        "--property=StandardOutput=null"@,
        "--property=StandardError=journal"@,
        "--"@,
        "/usr/bin/lianli-control"@,
        "run-selected-media-import"@,
    ]
}

pub open spec fn launch_of(
    scope: ServiceScope,
    selection: Seq<char>,
    config: Seq<char>,
    id: Seq<char>,
) -> Seq<Seq<char>> {
    let request = request_arguments(scope, selection, config, id);
    manager_options() + Seq::new(request.len(), |i: int| escaped(request[i]))
}

fn options() -> (r: Vec<String>)
    ensures
        texts(r@) == manager_options(),
{
    let mut args: Vec<String> = Vec::new();
    args.push("--user".to_owned());
    args.push("--quiet".to_owned());
    args.push("--collect".to_owned());
    args.push("--no-ask-password".to_owned());
    args.push("--unit=lianli-media-import.service".to_owned());
    args.push("--property=Type=exec".to_owned());
    args.push("--property=Restart=no".to_owned());
    args.push("--property=KillMode=control-group".to_owned());
    args.push("--property=RuntimeMaxSec=840s".to_owned());
    args.push("--property=TimeoutStopSec=10s".to_owned());
    args.push("--property=StandardInput=null".to_owned());
    args.push("--property=StandardOutput=null".to_owned());
    args.push("--property=StandardError=journal".to_owned());
    args.push("--".to_owned());
    args.push("/usr/bin/lianli-control".to_owned());
    args.push("run-selected-media-import".to_owned());
    assert(texts(args@) =~= manager_options());
    args
}

/// The arguments with which the manager runs an import.
pub fn launch_arguments(scope: ServiceScope, selection: &str, config: &str, id: &str) -> (r: Result<
    Vec<String>,
    String,
>)
    ensures
        match r {
            Ok(args) => request_complaint(selection@, config@, id@) is None && texts(args@)
                == launch_of(scope, selection@, config@, id@),
            Err(e) => request_complaint(selection@, config@, id@) == Some(e@),
        },
{
    let command = match authorization_arguments(scope, selection, config, id) {
        Ok(command) => command,
        Err(e) => {
            return Err(e);
        },
    };
    let ghost all = texts(command@);
    assert(all.len() == command@.len());
    let ghost request = request_arguments(scope, selection@, config@, id@);
    let mut args = options();
    let mut i: usize = 3;
    assert(texts(args@) =~= manager_options() + Seq::new(0, |j: int| escaped(request[j])));
    while i < command.len()
        invariant
            all == texts(command@),
            all.len() == command@.len(),
            all == authorization_of(scope, selection@, config@, id@),
            request == request_arguments(scope, selection@, config@, id@),
            3 <= i <= command@.len(),
            texts(args@) == manager_options() + Seq::new(
                (i - 3) as nat,
                |j: int| escaped(request[j]),
            ),
        decreases command@.len() - i,
    {
        assert(all[i as int] == command@[i as int]@);
        assert(all[i as int] == request[i - 3]);
        let argument = text::replace(
            text::replace(command[i].as_str(), '$', "$$").as_str(),
            '%',
            "%%",
        );
        proof {
            text::texts_push(args@, argument);
        }
        args.push(argument);
        i += 1;
        assert(texts(args@) =~= manager_options() + Seq::new(
            (i - 3) as nat,
            |j: int| escaped(request[j]),
        ));
    }
    assert(texts(args@) =~= launch_of(scope, selection@, config@, id@));
    Ok(args)
}

pub open spec fn runtime_complaint(uid: u32, m: Metadata) -> Option<Seq<char>> {
    if uid == 0 {
        Some("Managed import progress belongs to the desktop user"@)
    } else if m.kind == FileKind::Directory && m.uid == uid && m.mode & 0o077 == 0 {
        None
    } else {
        Some("A private desktop-user runtime directory is required for managed imports"@)
    }
}

/// The desktop user's directory in which imports are kept.
pub fn check_runtime(uid: u32, m: &Metadata) -> (r: Result<(), String>)
    ensures
        complaint(r) == runtime_complaint(uid, *m),
{
    if uid == 0 {
        return Err("Managed import progress belongs to the desktop user".to_owned());
    }
    if m.kind == FileKind::Directory && m.uid == uid && m.mode & 0o077 == 0 {
        Ok(())
    } else {
        Err("A private desktop-user runtime directory is required for managed imports".to_owned())
    }
}

/// Where the imports of the desktop user are kept: `found` is the runtime directory.
pub fn runtime_path(uid: u32, found: &Result<Metadata, String>) -> (r: Result<String, String>)
    ensures
        match r {
            Ok(p) => found matches Ok(m) && runtime_complaint(uid, *m) is None && p@
                == account::runtime_of(uid) + "/lianli-media-import"@,
            Err(e) => match *found {
                Err(reason) => if uid == 0 {
                    e@ == "Managed import progress belongs to the desktop user"@
                } else {
                    e@ == reason@
                },
                Ok(m) => runtime_complaint(uid, m) == Some(e@),
            },
        },
{
    if uid == 0 {
        return Err("Managed import progress belongs to the desktop user".to_owned());
    }
    match found {
        Err(e) => Err(e.clone()),
        Ok(m) => {
            check_runtime(uid, m)?;
            let mut p = account::runtime_directory(uid);
            p.append("/lianli-media-import");
            Ok(p)
        },
    }
}

/// A worker runs on the host itself.
pub fn check_native(native: bool) -> (r: Result<(), String>)
    ensures
        complaint(r) == if native {
            None
        } else {
            Some("Run managed import workers in the native desktop session"@)
        },
{
    if native {
        Ok(())
    } else {
        Err("Run managed import workers in the native desktop session".to_owned())
    }
}

/// What speaks against an authorized import, by its exit code, its output and its errors.
pub open spec fn execution_of(
    output: Result<(Option<i32>, Seq<char>, Seq<char>), Seq<char>>,
) -> Option<Seq<char>> {
    match output {
        Err(e) => Some(
            "Import authorization or execution did not finish; inspect storage before retrying: "@
                + e,
        ),
        Ok(o) => if o.0 == Some(0i32) {
            None
        } else {
            Some(
                "Managed import failed: "@ + text::cut(o.2, MAX_ERROR as int)
                    + ". Check the desktop authentication agent and installed helper, then inspect storage before retrying"@,
            )
        },
    }
}

/// What came of the authorized import.
pub fn check_execution(output: &Result<Output, String>) -> (r: Result<(), String>)
    ensures
        complaint(r) == execution_of(said(*output)),
{
    match output {
        Err(e) => {
            let mut text =
                "Import authorization or execution did not finish; inspect storage before retrying: ".to_owned();
            text.append(e.as_str());
            Err(text)
        },
        Ok(o) => {
            if o.success() {
                return Ok(());
            }
            let mut text = "Managed import failed: ".to_owned();
            text.append(text::take(o.stderr.as_str(), MAX_ERROR).as_str());
            text.append(
                ". Check the desktop authentication agent and installed helper, then inspect storage before retrying",
            );
            Err(text)
        },
    }
}

/// Whether the selection is the request that this worker was submitted with, and is removed at the
/// end.
pub fn owns_request(selection: &str, runtime: &str, id: &str) -> (r: bool)
    ensures
        r == path::same_path(selection@, path::join_of(runtime@, request_of(id@))),
{
    path::same(selection, path::join(runtime, request_name(id).as_str()).as_str())
}

pub open spec fn request_file_complaint(m: Metadata, uid: u32) -> Option<Seq<char>> {
    if m.kind == FileKind::File && m.uid == uid && m.mode & 0o077 == 0 {
        None
    } else {
        Some("Import outcome was saved, but its request file changed; preserve it for inspection"@)
    }
}

/// The request file just before it is removed.
pub fn check_request_file(m: &Metadata, uid: u32) -> (r: Result<(), String>)
    ensures
        complaint(r) == request_file_complaint(*m, uid),
{
    if m.kind == FileKind::File && m.uid == uid && m.mode & 0o077 == 0 {
        Ok(())
    } else {
        Err(
            "Import outcome was saved, but its request file changed; preserve it for inspection".to_owned(),
        )
    }
}

/// What came of an import, by how the helper ended, what its answer holds and what the shared rules say
/// of that.
pub open spec fn imported_of(
    output: Result<(Option<i32>, Seq<char>, Seq<char>), Seq<char>>,
    answer: Result<PublishedSelection, String>,
    config: Seq<char>,
    id: Seq<char>,
    canonical: Result<String, String>,
    dependencies: Result<Vec<AssetDependency>, String>,
) -> Result<PublishedSelection, Seq<char>> {
    match execution_of(output) {
        Some(e) => Err(e),
        None => match answer {
            Err(e) => Err(
                "Managed import returned an invalid result; inspect storage before retrying: "@
                    + e@,
            ),
            Ok(result) => match result_complaint(result, config, id, canonical, dependencies) {
                Some(e) => Err(e),
                None => Ok(result),
            },
        },
    }
}

pub fn imported(
    output: &Result<Output, String>,
    answer: Result<PublishedSelection, String>,
    config: &str,
    id: &str,
    canonical: &Result<String, String>,
    dependencies: &Result<Vec<AssetDependency>, String>,
) -> (r: Result<PublishedSelection, String>)
    ensures
        outcome(r) == imported_of(said(*output), answer, config@, id@, *canonical, *dependencies),
{
    check_execution(output)?;
    match answer {
        Err(e) => {
            let mut whole =
                "Managed import returned an invalid result; inspect storage before retrying: ".to_owned();
            whole.append(e.as_str());
            Err(whole)
        },
        Ok(result) => {
            validate_result(&result, config, id, canonical, dependencies)?;
            Ok(result)
        },
    }
}

/// Where the submission of an import stands.
#[derive(Clone, Copy, Debug, PartialEq, Eq, Structural)]
pub enum StartStep {
    CheckContext,
    CheckSelection,
    CheckRuntime,
    OpenDirectory,
    CheckRequests,
    ChooseIdentity,
    WriteRequest,
    SyncDirectory,
    Submit,
    Started,
    Failed,
}

pub open spec fn start_rank(step: StartStep) -> int {
    match step {
        StartStep::CheckContext => 0,
        StartStep::CheckSelection => 1,
        StartStep::CheckRuntime => 2,
        StartStep::OpenDirectory => 3,
        StartStep::CheckRequests => 4,
        StartStep::ChooseIdentity => 5,
        StartStep::WriteRequest => 6,
        StartStep::SyncDirectory => 7,
        StartStep::Submit => 8,
        StartStep::Started => 9,
        StartStep::Failed => 10,
    }
}

/// The submission of an import: the request is written and made durable before the manager is asked
/// to run it.
pub struct Start {
    pub scope: ServiceScope,
    pub config: String,
    /// The directory of requests.
    pub runtime: String,
    /// The import's identity, once it was chosen.
    pub id: String,
    /// Where the request stands.
    pub selection: String,
    /// The arguments for the manager.
    pub arguments: Vec<String>,
    pub step: StartStep,
    pub error: String,
    /// The steps that succeeded, in order.
    pub log: Ghost<Seq<StartStep>>,
}

pub open spec fn start_stops(before: Start, after: Start, text: Seq<char>) -> bool {
    after == (Start { step: StartStep::Failed, error: after.error, ..before })
        && after.error@ == text
}

pub open spec fn start_moves(before: Start, after: Start, next: StartStep) -> bool {
    after == (Start { step: next, log: Ghost(before.log@.push(before.step)), ..before })
}

impl Start {
    /// Every step before the present one succeeded.
    pub open spec fn wf(self) -> bool {
        self.step != StartStep::Failed ==> {
            &&& forall|s: StartStep|
                start_rank(s) < start_rank(self.step) ==> #[trigger] self.log@.contains(s)
            &&& start_rank(self.step) > 5 ==> texts(self.arguments@) == launch_of(
                self.scope,
                self.selection@,
                self.config@,
                self.id@,
            ) && self.selection@ == path::join_of(self.runtime@, request_of(self.id@))
        }
    }

    pub fn begin(scope: ServiceScope, config: String, runtime: String) -> (r: Start)
        ensures
            r.wf(),
            r.scope == scope,
            r.config == config,
            r.runtime == runtime,
            r.step == StartStep::CheckContext,
            r.log@ == Seq::<StartStep>::empty(),
            r.id@.len() == 0,
            r.selection@.len() == 0,
            r.arguments@.len() == 0,
    {
        Start {
            scope,
            config,
            runtime,
            id: String::new(),
            selection: String::new(),
            arguments: Vec::new(),
            step: StartStep::CheckContext,
            error: String::new(),
            log: Ghost(Seq::empty()),
        }
    }

    fn advance(&mut self, next: StartStep)
        requires
            (Start {
                step: next,
                log: Ghost(old(self).log@.push(old(self).step)),
                ..*old(self)
            }).wf(),
        ensures
            final(self).wf(),
            start_moves(*old(self), *final(self), next),
    {
        self.log = Ghost(self.log@.push(self.step));
        self.step = next;
    }

    /// A step could not be done.
    pub fn failed(&mut self, reason: &str)
        ensures
            final(self).wf(),
            start_stops(*old(self), *final(self), reason@),
    {
        self.step = StartStep::Failed;
        self.error = reason.to_owned();
    }

    /// The context and the status of an earlier import were read.
    pub fn context(&mut self, native: bool, status: &Option<Status>)
        requires
            old(self).wf(),
            old(self).step == StartStep::CheckContext,
        ensures
            final(self).wf(),
            match start_complaint(native, *status is Some && (*status)->0.active) {
                Some(e) => start_stops(*old(self), *final(self), e),
                None => start_moves(*old(self), *final(self), StartStep::CheckSelection),
            },
    {
        match check_start(native, status) {
            Err(e) => {
                self.failed(e.as_str());
            },
            Ok(_) => {
                proof {
                    steps::push_holds(self.log@, self.step);
                }
                self.advance(StartStep::CheckSelection);
            },
        }
    }

    /// What the selection refers to was listed, where it could be.
    pub fn selection(&mut self, dependencies: Result<(), String>)
        requires
            old(self).wf(),
            old(self).step == StartStep::CheckSelection,
        ensures
            final(self).wf(),
            match complaint(dependencies) {
                Some(e) => start_stops(*old(self), *final(self), e),
                None => start_moves(*old(self), *final(self), StartStep::CheckRuntime),
            },
    {
        match dependencies {
            Err(e) => {
                self.failed(e.as_str());
            },
            Ok(_) => {
                proof {
                    steps::push_holds(self.log@, self.step);
                }
                self.advance(StartStep::CheckRuntime);
            },
        }
    }

    /// The user's runtime directory was looked at, without following links.
    pub fn runtime(&mut self, uid: u32, m: &Metadata)
        requires
            old(self).wf(),
            old(self).step == StartStep::CheckRuntime,
        ensures
            final(self).wf(),
            match runtime_complaint(uid, *m) {
                Some(e) => start_stops(*old(self), *final(self), e),
                None => start_moves(*old(self), *final(self), StartStep::OpenDirectory),
            },
    {
        match check_runtime(uid, m) {
            Err(e) => {
                self.failed(e.as_str());
            },
            Ok(_) => {
                proof {
                    steps::push_holds(self.log@, self.step);
                }
                self.advance(StartStep::OpenDirectory);
            },
        }
    }

    /// The directory of requests, which exists and was opened.
    pub fn opened(&mut self, m: &Metadata, uid: u32)
        requires
            old(self).wf(),
            old(self).step == StartStep::OpenDirectory,
        ensures
            final(self).wf(),
            match directory_complaint(*m, uid) {
                Some(e) => start_stops(*old(self), *final(self), e),
                None => start_moves(*old(self), *final(self), StartStep::CheckRequests),
            },
    {
        match open_directory(m, uid) {
            Err(e) => {
                self.failed(e.as_str());
            },
            Ok(_) => {
                proof {
                    steps::push_holds(self.log@, self.step);
                }
                self.advance(StartStep::CheckRequests);
            },
        }
    }

    /// The entries of the directory of requests were counted.
    pub fn requests(&mut self, m: &Metadata, uid: u32, entries: usize)
        requires
            old(self).wf(),
            old(self).step == StartStep::CheckRequests,
        ensures
            final(self).wf(),
            match requests_complaint(*m, uid, entries) {
                Some(e) => start_stops(*old(self), *final(self), e),
                None => start_moves(*old(self), *final(self), StartStep::ChooseIdentity),
            },
    {
        match check_requests(m, uid, entries) {
            Err(e) => {
                self.failed(e.as_str());
            },
            Ok(_) => {
                proof {
                    steps::push_holds(self.log@, self.step);
                }
                self.advance(StartStep::ChooseIdentity);
            },
        }
    }

    /// Random bytes were drawn for the identity.
    pub fn identity(&mut self, bytes: &Vec<u8>)
        requires
            old(self).wf(),
            old(self).step == StartStep::ChooseIdentity,
        ensures
            final(self).wf(),
            match request_complaint(
                path::join_of(old(self).runtime@, request_of(text::hex(bytes@))),
                old(self).config@,
                text::hex(bytes@),
            ) {
                Some(e) => start_stops(*old(self), *final(self), e),
                None => {
                    &&& *final(self) == (Start {
                        id: final(self).id,
                        selection: final(self).selection,
                        arguments: final(self).arguments,
                        step: StartStep::WriteRequest,
                        log: Ghost(old(self).log@.push(old(self).step)),
                        ..*old(self)
                    })
                    &&& final(self).id@ == text::hex(bytes@)
                },
            },
    {
        let id = text::format_hex(bytes);
        let selection = path::join(self.runtime.as_str(), request_name(id.as_str()).as_str());
        match launch_arguments(self.scope, selection.as_str(), self.config.as_str(), id.as_str()) {
            Err(e) => {
                self.failed(e.as_str());
            },
            Ok(arguments) => {
                self.arguments = arguments;
                self.id = id;
                self.selection = selection;
                proof {
                    steps::push_holds(self.log@, self.step);
                }
                self.advance(StartStep::WriteRequest);
            },
        }
    }

    /// The request was written, private to the user, and written back.
    pub fn written(&mut self)
        requires
            old(self).wf(),
            old(self).step == StartStep::WriteRequest,
        ensures
            final(self).wf(),
            start_moves(*old(self), *final(self), StartStep::SyncDirectory),
    {
        proof {
            steps::push_holds(self.log@, self.step);
        }
        self.advance(StartStep::SyncDirectory);
    }

    /// The directory of requests was written back.
    pub fn synced(&mut self)
        requires
            old(self).wf(),
            old(self).step == StartStep::SyncDirectory,
        ensures
            final(self).wf(),
            start_moves(*old(self), *final(self), StartStep::Submit),
    {
        proof {
            steps::push_holds(self.log@, self.step);
        }
        self.advance(StartStep::Submit);
    }

    /// The manager was asked to run the import.
    pub fn submitted(&mut self, output: &Result<Output, String>)
        requires
            old(self).wf(),
            old(self).step == StartStep::Submit,
        ensures
            final(self).wf(),
            match submission_of(*output) {
                Some(e) => start_stops(*old(self), *final(self), e),
                None => start_moves(*old(self), *final(self), StartStep::Started),
            },
    {
        match check_submission(output) {
            Err(e) => {
                self.failed(e.as_str());
            },
            Ok(_) => {
                proof {
                    steps::push_holds(self.log@, self.step);
                }
                self.advance(StartStep::Started);
            },
        }
    }
}

/// An import counts as started only after its request was written and made durable.
pub proof fn requests_are_durable_before_they_are_submitted(m: Start)
    requires
        m.wf(),
        m.step == StartStep::Started,
    ensures
        m.log@.contains(StartStep::WriteRequest),
        m.log@.contains(StartStep::SyncDirectory),
        m.log@.contains(StartStep::Submit),
{
}

/// Where a worker that runs an import stands.
#[derive(Clone, Copy, Debug, PartialEq, Eq, Structural)]
pub enum WorkStep {
    CheckContext,
    CheckRuntime,
    BeginJob,
    Execute,
    SaveOutcome,
    CheckRequest,
    RemoveRequest,
    SyncDirectory,
    Finished,
    Failed,
}

pub open spec fn work_rank(step: WorkStep) -> int {
    match step {
        WorkStep::CheckContext => 0,
        WorkStep::CheckRuntime => 1,
        WorkStep::BeginJob => 2,
        WorkStep::Execute => 3,
        WorkStep::SaveOutcome => 4,
        WorkStep::CheckRequest => 5,
        WorkStep::RemoveRequest => 6,
        WorkStep::SyncDirectory => 7,
        WorkStep::Finished => 8,
        WorkStep::Failed => 9,
    }
}

/// The helper is run only for a valid request, and only the worker's own request is removed.
pub open spec fn work_takes(step: WorkStep, launched: bool, owned: bool) -> bool {
    match step {
        WorkStep::Execute => launched,
        WorkStep::CheckRequest | WorkStep::RemoveRequest | WorkStep::SyncDirectory => owned,
        _ => true,
    }
}

/// A worker that runs an import: whatever comes of it is saved before the request is removed.
pub struct Work {
    pub scope: ServiceScope,
    pub selection: String,
    pub config: String,
    pub id: String,
    /// The arguments of the authorization helper.
    pub arguments: Vec<String>,
    /// Whether the helper was run.
    pub launched: bool,
    /// Whether the request is the worker's own.
    pub owned: bool,
    /// What came of the import.
    pub outcome: Result<PublishedSelection, String>,
    pub step: WorkStep,
    pub error: String,
    /// The steps that succeeded, in order.
    pub log: Ghost<Seq<WorkStep>>,
}

pub open spec fn work_stops(before: Work, after: Work, text: Seq<char>) -> bool {
    after == (Work { step: WorkStep::Failed, error: after.error, ..before }) && after.error@ == text
}

pub open spec fn work_moves(before: Work, after: Work, next: WorkStep) -> bool {
    after == (Work { step: next, log: Ghost(before.log@.push(before.step)), ..before })
}

impl Work {
    /// Every step taken before the present one succeeded.
    pub open spec fn wf(self) -> bool {
        self.step != WorkStep::Failed ==> {
            &&& forall|s: WorkStep|
                work_rank(s) < work_rank(self.step) && work_takes(s, self.launched, self.owned)
                    ==> #[trigger] self.log@.contains(s)
            &&& self.step == WorkStep::Execute ==> self.launched
            &&& work_rank(self.step) > 3 && !self.launched ==> self.outcome is Err
        }
    }

    pub fn begin(scope: ServiceScope, selection: String, config: String, id: String) -> (r: Work)
        ensures
            r.wf(),
            r.scope == scope,
            r.selection == selection,
            r.config == config,
            r.id == id,
            r.step == WorkStep::CheckContext,
            r.log@ == Seq::<WorkStep>::empty(),
            r.arguments@.len() == 0,
            !r.launched,
            !r.owned,
    {
        Work {
            scope,
            selection,
            config,
            id,
            arguments: Vec::new(),
            launched: false,
            owned: false,
            outcome: Err(String::new()),
            step: WorkStep::CheckContext,
            error: String::new(),
            log: Ghost(Seq::empty()),
        }
    }

    fn advance(&mut self, next: WorkStep)
        requires
            (Work {
                step: next,
                log: Ghost(old(self).log@.push(old(self).step)),
                ..*old(self)
            }).wf(),
        ensures
            final(self).wf(),
            work_moves(*old(self), *final(self), next),
    {
        self.log = Ghost(self.log@.push(self.step));
        self.step = next;
    }

    /// A step could not be done.
    pub fn failed(&mut self, reason: &str)
        ensures
            final(self).wf(),
            work_stops(*old(self), *final(self), reason@),
    {
        self.step = WorkStep::Failed;
        self.error = reason.to_owned();
    }

    /// Workers run on the host itself.
    pub fn context(&mut self, native: bool)
        requires
            old(self).wf(),
            old(self).step == WorkStep::CheckContext,
        ensures
            final(self).wf(),
            match if native {
                None::<Seq<char>>
            } else {
                Some("Run managed import workers in the native desktop session"@)
            } {
                Some(e) => work_stops(*old(self), *final(self), e),
                None => work_moves(*old(self), *final(self), WorkStep::CheckRuntime),
            },
    {
        match check_native(native) {
            Err(e) => {
                self.failed(e.as_str());
            },
            Ok(_) => {
                proof {
                    steps::push_holds(self.log@, self.step);
                }
                self.advance(WorkStep::CheckRuntime);
            },
        }
    }

    /// The user's runtime directory was looked at, without following links.
    pub fn runtime(&mut self, uid: u32, m: &Metadata)
        requires
            old(self).wf(),
            old(self).step == WorkStep::CheckRuntime,
        ensures
            final(self).wf(),
            match runtime_complaint(uid, *m) {
                Some(e) => work_stops(*old(self), *final(self), e),
                None => work_moves(*old(self), *final(self), WorkStep::BeginJob),
            },
    {
        match check_runtime(uid, m) {
            Err(e) => {
                self.failed(e.as_str());
            },
            Ok(_) => {
                proof {
                    steps::push_holds(self.log@, self.step);
                }
                self.advance(WorkStep::BeginJob);
            },
        }
    }

    /// The job of this import, which runs, or could not be begun.
    pub fn begun(&mut self, job: &Job)
        requires
            old(self).wf(),
            old(self).step == WorkStep::BeginJob,
            job.wf(),
            job.id@ == old(self).id@,
            job.step == JobStep::Running || job.step == JobStep::Failed,
        ensures
            final(self).wf(),
            job.step == JobStep::Failed ==> work_stops(*old(self), *final(self), job.error@),
            job.step == JobStep::Running ==> match request_complaint(
                old(self).selection@,
                old(self).config@,
                old(self).id@,
            ) {
                Some(e) => {
                    &&& *final(self) == (Work {
                        outcome: final(self).outcome,
                        launched: false,
                        step: WorkStep::SaveOutcome,
                        log: Ghost(old(self).log@.push(old(self).step)),
                        ..*old(self)
                    })
                    &&& final(self).outcome matches Err(cause)
                    &&& cause@ == e
                },
                None => {
                    &&& *final(self) == (Work {
                        arguments: final(self).arguments,
                        launched: true,
                        step: WorkStep::Execute,
                        log: Ghost(old(self).log@.push(old(self).step)),
                        ..*old(self)
                    })
                    &&& texts(final(self).arguments@) == authorization_of(
                        old(self).scope,
                        old(self).selection@,
                        old(self).config@,
                        old(self).id@,
                    )
                },
            },
    {
        if let JobStep::Failed = job.step {
            self.failed(job.error.as_str());
            return;
        }
        let arguments = authorization_arguments(
            self.scope,
            self.selection.as_str(),
            self.config.as_str(),
            self.id.as_str(),
        );
        proof {
            steps::push_holds(self.log@, self.step);
        }
        match arguments {
            Err(e) => {
                self.outcome = Err(e);
                self.launched = false;
                self.advance(WorkStep::SaveOutcome);
            },
            Ok(arguments) => {
                self.arguments = arguments;
                self.launched = true;
                self.advance(WorkStep::Execute);
            },
        }
    }

    /// `Execute`: the run of the helper, as it begins.
    pub fn executing(&self) -> (r: Result<Run, String>)
        ensures
            r matches Ok(run) && run.wf() && run.timeout_ms == EXECUTE_MS && run.output.limit
                == LARGEST_OUTPUT && run.step == RunStep::CheckTime && run.output.bytes@.len() == 0
                && run.errors.bytes@.len() == 0 && !run.collected,
    {
        Run::begin(EXECUTE_MS, LARGEST_OUTPUT)
    }

    /// The helper ended, or could not be run, with what its answer holds and what the shared rules
    /// say of that.
    pub fn executed(
        &mut self,
        ran: &Result<Ran, String>,
        answer: Result<PublishedSelection, String>,
        canonical: &Result<String, String>,
        dependencies: &Result<Vec<AssetDependency>, String>,
    )
        requires
            old(self).wf(),
            old(self).step == WorkStep::Execute,
            ran_within(*ran, EXECUTE_MS, LARGEST_OUTPUT),
        ensures
            final(self).wf(),
            *final(self) == (Work {
                outcome: final(self).outcome,
                step: WorkStep::SaveOutcome,
                log: Ghost(old(self).log@.push(old(self).step)),
                ..*old(self)
            }),
            outcome(final(self).outcome) == imported_of(
                left_by(*ran),
                answer,
                old(self).config@,
                old(self).id@,
                *canonical,
                *dependencies,
            ),
    {
        let result = imported(
            &ended(ran),
            answer,
            self.config.as_str(),
            self.id.as_str(),
            canonical,
            dependencies,
        );
        self.outcome = result;
        proof {
            steps::push_holds(self.log@, self.step);
        }
        self.advance(WorkStep::SaveOutcome);
    }

    /// What came of the import, for its job to record.
    pub fn ending(&self) -> (r: Result<PublishedSelection, String>)
        ensures
            match (self.outcome, r) {
                (Ok(a), Ok(b)) => same_published(a, b),
                (Err(a), Err(b)) => a@ == b@,
                _ => false,
            },
    {
        match &self.outcome {
            Ok(published) => Ok(published.copy()),
            Err(e) => Err(e.clone()),
        }
    }

    /// The job of this import, which recorded what came of it, or could not.
    pub fn saved(&mut self, job: &Job, runtime: &str)
        requires
            old(self).wf(),
            old(self).step == WorkStep::SaveOutcome,
            job.wf(),
            job.id@ == old(self).id@,
            job.step == JobStep::Finished || job.step == JobStep::Failed,
            job.step == JobStep::Finished ==> tells(job.status, old(self).id@, old(self).outcome),
        ensures
            final(self).wf(),
            job.step == JobStep::Failed ==> work_stops(*old(self), *final(self), job.error@),
            job.step == JobStep::Finished ==> ({
                let owned = path::same_path(
                    old(self).selection@,
                    path::join_of(runtime@, request_of(old(self).id@)),
                );
                *final(self) == (Work {
                    owned,
                    step: if owned {
                        WorkStep::CheckRequest
                    } else {
                        WorkStep::Finished
                    },
                    log: Ghost(old(self).log@.push(old(self).step)),
                    ..*old(self)
                })
            }),
    {
        if let JobStep::Failed = job.step {
            self.failed(job.error.as_str());
            return;
        }
        self.owned = owns_request(self.selection.as_str(), runtime, self.id.as_str());
        proof {
            steps::push_holds(self.log@, self.step);
        }
        if self.owned {
            self.advance(WorkStep::CheckRequest);
        } else {
            self.advance(WorkStep::Finished);
        }
    }

    /// The directory of requests was opened, and the request was looked at once more, without
    /// following links.
    pub fn request(&mut self, directory: &Metadata, m: &Metadata, uid: u32)
        requires
            old(self).wf(),
            old(self).step == WorkStep::CheckRequest,
        ensures
            final(self).wf(),
            match directory_complaint(*directory, uid) {
                Some(e) => work_stops(*old(self), *final(self), e),
                None => match request_file_complaint(*m, uid) {
                    Some(e) => work_stops(*old(self), *final(self), e),
                    None => work_moves(*old(self), *final(self), WorkStep::RemoveRequest),
                },
            },
    {
        let verdict = match open_directory(directory, uid) {
            Err(e) => Err(e),
            Ok(_) => check_request_file(m, uid),
        };
        match verdict {
            Err(e) => {
                self.failed(e.as_str());
            },
            Ok(_) => {
                proof {
                    steps::push_holds(self.log@, self.step);
                }
                self.advance(WorkStep::RemoveRequest);
            },
        }
    }

    /// The request was removed.
    pub fn removed(&mut self)
        requires
            old(self).wf(),
            old(self).step == WorkStep::RemoveRequest,
        ensures
            final(self).wf(),
            work_moves(*old(self), *final(self), WorkStep::SyncDirectory),
    {
        proof {
            steps::push_holds(self.log@, self.step);
        }
        self.advance(WorkStep::SyncDirectory);
    }

    /// The directory of requests was written back.
    pub fn synced(&mut self)
        requires
            old(self).wf(),
            old(self).step == WorkStep::SyncDirectory,
        ensures
            final(self).wf(),
            work_moves(*old(self), *final(self), WorkStep::Finished),
    {
        proof {
            steps::push_holds(self.log@, self.step);
        }
        self.advance(WorkStep::Finished);
    }
}

/// When a request is removed, what came of the import was saved before.
pub proof fn outcomes_are_saved_before_requests_are_removed(m: Work)
    requires
        m.wf(),
        m.step == WorkStep::RemoveRequest || m.step == WorkStep::SyncDirectory || m.step == WorkStep::Finished,
    ensures
        m.log@.contains(WorkStep::BeginJob),
        m.log@.contains(WorkStep::SaveOutcome),
{
}

/// An import is submitted exactly from the host while none is active, in a private directory of the
/// desktop user with no more than 33 requests in it, by absolute paths of at most 4096 bytes and
/// under a valid identifier.
pub proof fn imports_are_submitted_within_their_limits(
    native: bool,
    active: bool,
    m: Metadata,
    uid: u32,
    entries: usize,
    selection: Seq<char>,
    config: Seq<char>,
    id: Seq<char>,
)
    ensures
        start_complaint(native, active) is None <==> native && !active,
        requests_complaint(m, uid, entries) is None <==> m.uid == uid && m.mode & 0o022 == 0 && m.mode
            & 0o077 == 0 && entries <= 33,
        runtime_complaint(uid, m) is None <==> uid != 0 && m.kind == FileKind::Directory && m.uid
            == uid && m.mode & 0o077 == 0,
        request_complaint(selection, config, id) is None <==> text::hex_of_len(id, 32)
            && path::is_absolute(selection) && path::is_absolute(config) && text::byte_len(selection)
            <= 4096 && text::byte_len(config) <= 4096,
        request_file_complaint(m, uid) is None <==> m.kind == FileKind::File && m.uid == uid && m.mode
            & 0o077 == 0,
{
}

/// A request names the service, the selection, the configuration and the identifier, each behind its
/// own option, and the helper that is authorized is told exactly that.
pub proof fn requests_name_what_is_asked(
    scope: ServiceScope,
    selection: Seq<char>,
    config: Seq<char>,
    id: Seq<char>,
)
    ensures
        ({
            let asked = request_arguments(scope, selection, config, id);
            &&& asked.len() == 8
            &&& asked[0] == "--scope"@ && asked[1] == scope.word_spec()
            &&& asked[2] == "--selection"@ && asked[3] == selection
            &&& asked[4] == "--expected-config"@ && asked[5] == config
            &&& asked[6] == "--operation-id"@ && asked[7] == id
            &&& authorization_of(scope, selection, config, id).skip(3) == asked
            &&& authorization_of(scope, selection, config, id)[1] == "/usr/bin/lianli-control"@
            &&& launch_of(scope, selection, config, id).len() == manager_options().len() + 8
            &&& launch_of(scope, selection, config, id).take(manager_options().len() as int)
                == manager_options()
        }),
        "user"@ == ServiceScope::User.word_spec() && "system"@ == ServiceScope::System.word_spec(),
{
    let asked = request_arguments(scope, selection, config, id);
    assert(authorization_of(scope, selection, config, id).skip(3) =~= asked);
    assert(launch_of(scope, selection, config, id).take(manager_options().len() as int)
        =~= manager_options());
}

/// A submission, and an import that was run, counts exactly where the program could be run and
/// succeeded.
pub proof fn submissions_and_imports_succeed_with_their_program(
    output: Result<Output, String>,
    ran: Result<(Option<i32>, Seq<char>, Seq<char>), Seq<char>>,
)
    ensures
        submission_of(output) is None <==> output is Ok && output->Ok_0.code == Some(0i32),
        execution_of(ran) is None <==> ran is Ok && ran->Ok_0.0 == Some(0i32),
{
}

/// An import gave a result exactly where it was run with success, its answer could be read and is of
/// this import. That answer is the result.
pub proof fn imports_give_their_answer(
    output: Result<(Option<i32>, Seq<char>, Seq<char>), Seq<char>>,
    answer: Result<PublishedSelection, String>,
    config: Seq<char>,
    id: Seq<char>,
    canonical: Result<String, String>,
    dependencies: Result<Vec<AssetDependency>, String>,
)
    ensures
        ({
            let given = imported_of(output, answer, config, id, canonical, dependencies);
            &&& given is Ok <==> output is Ok && output->Ok_0.0 == Some(0i32) && answer is Ok
                && result_complaint(answer->Ok_0, config, id, canonical, dependencies) is None
            &&& given is Ok ==> given->Ok_0 == answer->Ok_0
        }),
{
}

/// Only a valid request is run, and only the worker's own request is removed.
pub proof fn workers_take_the_steps_of_their_request(launched: bool, owned: bool)
    ensures
        work_takes(WorkStep::Execute, launched, owned) <==> launched,
        work_takes(WorkStep::RemoveRequest, launched, owned) <==> owned,
        work_takes(WorkStep::SaveOutcome, launched, owned),
{
}

} // verus!
