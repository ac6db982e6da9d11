//! The record of a service operation that runs on its own: who may read and write it, what it says
//! while the operation runs, and how an observer tells that it was interrupted.

use crate::account;
use crate::command::Output;
use crate::container_destination::complaint;
use crate::distrobox_unit::written;
use crate::files::{FileKind, Metadata};
use crate::path;
use crate::services::{InstallationContext, ServiceActionRequest};
use crate::steps;
use crate::text;
use crate::text::{outcome, prefix, prefixed, texts};
use vstd::prelude::*;

verus! {

/// How long a submitted worker may take to report, in milliseconds.
pub const REPORT_MS: u64 = 30_000;

/// The largest record, in bytes.
pub const MAX_BYTES: u64 = 16_384;

/// The longest message, in characters.
pub const MAX_MESSAGE: usize = 2048;

/// How an operation stands.
#[derive(Clone, Debug)]
pub struct ServiceOperationStatus {
    pub active: bool,
    pub success: Option<bool>,
    pub message: String,
}

/// The record of an operation.
#[derive(Clone, Debug)]
pub struct JobStatus {
    pub version: u32,
    pub updated_at_ms: u64,
    pub id: String,
    pub request: ServiceActionRequest,
    pub status: ServiceOperationStatus,
}

/// The name of an operation.
pub open spec fn is_id(id: Seq<char>) -> bool {
    text::hex_of_len(id, 32)
}

pub fn valid_id(id: &str) -> (r: bool)
    ensures
        r == is_id(id@),
{
    text::is_hex_of_len(id, 32)
}

/// A message as far as the record keeps it.
pub fn bounded_message(message: &str) -> (r: String)
    ensures
        r@ == text::cut(message@, MAX_MESSAGE as int),
        r@.len() <= MAX_MESSAGE,
{
    text::take(message, MAX_MESSAGE)
}

pub fn check_directory(m: &Metadata, uid: u32) -> (r: Result<(), String>)
    ensures
        complaint(r) == if m.uid == uid && m.mode & 0o077 == 0 {
            None
        } else {
            Some("Service progress directory must be private and belong to this account"@)
        },
{
    if m.uid == uid && m.mode & 0o077 == 0 {
        Ok(())
    } else {
        Err("Service progress directory must be private and belong to this account".to_owned())
    }
}

pub fn check_lock(m: &Metadata, uid: u32) -> (r: Result<(), String>)
    ensures
        complaint(r) == if m.kind == FileKind::File && m.uid == uid && m.mode & 0o077 == 0 && m.nlink
            == 1 {
            None
        } else {
            Some("Invalid service progress lock"@)
        },
{
    if m.kind == FileKind::File && m.uid == uid && m.mode & 0o077 == 0 && m.nlink == 1 {
        Ok(())
    } else {
        Err("Invalid service progress lock".to_owned())
    }
}

pub fn check_file(m: &Metadata, uid: u32) -> (r: Result<(), String>)
    ensures
        complaint(r) == if m.kind == FileKind::File && m.uid == uid && m.mode & 0o077 == 0 && m.len
            <= MAX_BYTES {
            None
        } else {
            Some("Invalid service progress file"@)
        },
{
    if m.kind == FileKind::File && m.uid == uid && m.mode & 0o077 == 0 && m.len <= MAX_BYTES {
        Ok(())
    } else {
        Err("Invalid service progress file".to_owned())
    }
}

/// The size of a record that was read or is to be written.
pub fn check_size(size: u64) -> (r: Result<(), String>)
    ensures
        complaint(r) == if size <= MAX_BYTES {
            None
        } else {
            Some("Service progress exceeds its size limit"@)
        },
{
    if size <= MAX_BYTES {
        Ok(())
    } else {
        Err("Service progress exceeds its size limit".to_owned())
    }
}

pub open spec fn runtime_complaint(uid: u32, m: Metadata) -> Option<Seq<char>> {
    if uid == 0 {
        Some("Service jobs run under the desktop user, not root"@)
    } else if m.kind == FileKind::Directory && m.uid == uid && m.mode & 0o077 == 0 {
        None
    } else {
        Some("A private desktop-user runtime directory is required for service progress"@)
    }
}

/// The directory of the desktop user in which progress is kept.
pub fn check_runtime(uid: u32, m: &Metadata) -> (r: Result<(), String>)
    ensures
        complaint(r) == runtime_complaint(uid, *m),
{
    if uid == 0 {
        return Err("Service jobs run under the desktop user, not root".to_owned());
    }
    if m.kind == FileKind::Directory && m.uid == uid && m.mode & 0o077 == 0 {
        Ok(())
    } else {
        Err(
            "A private desktop-user runtime directory is required for service progress".to_owned(),
        )
    }
}

/// The words for an operation whose worker is gone.
pub open spec fn interrupted_words() -> Seq<char> {
    "Service verification was interrupted. Recheck services before retrying."@
}

impl JobStatus {
    /// A record that agrees with itself: it is active as long as it has no result.
    pub open spec fn wf(self) -> bool {
        self.version == 1 && is_id(self.id@) && self.status.active == (self.status.success is None)
    }

    /// Whether a record that was read may be used.
    pub fn validate(&self) -> (r: Result<(), String>)
        ensures
            complaint(r) == if self.wf() {
                None
            } else {
                Some("Unsupported or inconsistent service progress record"@)
            },
    {
        if self.version == 1 && valid_id(self.id.as_str()) && self.status.active
            == self.status.success.is_none() {
            Ok(())
        } else {
            Err("Unsupported or inconsistent service progress record".to_owned())
        }
    }

    /// The record of an operation that begins.
    pub fn begin(id: &str, request: ServiceActionRequest) -> (r: Result<JobStatus, String>)
        ensures
            match r {
                Ok(job) => {
                    &&& is_id(id@)
                    &&& job.wf()
                    &&& job.id@ == id@
                    &&& job.request == request
                    &&& job.updated_at_ms == 0
                    &&& job.status.active
                    &&& job.status.message@ == "Checking service state…"@
                },
                Err(e) => !is_id(id@) && e@ == "Invalid service operation identifier"@,
            },
    {
        if !valid_id(id) {
            return Err("Invalid service operation identifier".to_owned());
        }
        Ok(
            JobStatus {
                version: 1,
                updated_at_ms: 0,
                id: id.to_owned(),
                request,
                status: ServiceOperationStatus {
                    active: true,
                    success: None,
                    message: "Checking service state…".to_owned(),
                },
            },
        )
    }

    /// The operation reports progress.
    pub fn report(&mut self, message: &str)
        ensures
            *final(self) == (JobStatus {
                status: ServiceOperationStatus {
                    message: final(self).status.message,
                    ..old(self).status
                },
                ..*old(self)
            }),
            final(self).status.message@ == text::cut(message@, MAX_MESSAGE as int),
    {
        self.status.message = bounded_message(message);
    }

    /// The operation ends.
    pub fn finish(&mut self, result: &Result<String, String>)
        ensures
            *final(self) == (JobStatus {
                status: ServiceOperationStatus {
                    active: false,
                    success: Some(*result is Ok),
                    message: final(self).status.message,
                },
                ..*old(self)
            }),
            final(self).status.message@ == text::cut(
                match *result {
                    Ok(message) => message@,
                    Err(e) => e@,
                },
                MAX_MESSAGE as int,
            ),
    {
        self.status.active = false;
        match result {
            Ok(message) => {
                self.status.success = Some(true);
                self.status.message = bounded_message(message.as_str());
            },
            Err(e) => {
                self.status.success = Some(false);
                self.status.message = bounded_message(e.as_str());
            },
        }
    }

    /// The record as it is written at a time, in milliseconds.
    pub fn stamped(&self, now_ms: u64) -> (r: JobStatus)
        ensures
            r == (JobStatus { updated_at_ms: now_ms, ..*self }),
    {
        JobStatus {
            version: self.version,
            updated_at_ms: now_ms,
            id: self.id.clone(),
            request: self.request,
            status: ServiceOperationStatus {
                active: self.status.active,
                success: self.status.success,
                message: self.status.message.clone(),
            },
        }
    }

    /// The worker is gone and left the operation unfinished.
    fn interrupt(self) -> (r: JobStatus)
        ensures
            r == (JobStatus { status: r.status, ..self }),
            !r.status.active,
            r.status.success == Some(false),
            r.status.message@ == interrupted_words(),
    {
        JobStatus {
            status: ServiceOperationStatus {
                active: false,
                success: Some(false),
                message:
                    "Service verification was interrupted. Recheck services before retrying.".to_owned(),
            },
            ..self
        }
    }
}

/// Whether an observer must find out if the worker still lives.
pub fn needs_lock(record: &Option<JobStatus>) -> (r: bool)
    ensures
        r == (*record matches Some(job) && job.status.active),
{
    match record {
        Some(job) => job.status.active,
        None => false,
    }
}

/// What an observer sees of an active operation. `free` says whether the worker's lock could be had;
/// then the record was read once more, for the worker may have finished in between.
pub open spec fn is_observed(
    record: JobStatus,
    free: bool,
    again: Option<JobStatus>,
    r: Result<JobStatus, String>,
) -> bool {
    if !free {
        r == Ok::<JobStatus, String>(record)
    } else {
        match again {
            None => r matches Err(e) && e@ == "Service progress disappeared"@,
            Some(job) => if job.status.active {
                r matches Ok(seen) && seen == (JobStatus { status: seen.status, ..job })
                    && !seen.status.active && seen.status.success == Some(false)
                    && seen.status.message@ == interrupted_words()
            } else {
                r == Ok::<JobStatus, String>(job)
            },
        }
    }
}

pub fn observe(record: JobStatus, free: bool, again: Option<JobStatus>) -> (r: Result<
    JobStatus,
    String,
>)
    requires
        record.status.active,
    ensures
        is_observed(record, free, again, r),
{
    if !free {
        return Ok(record);
    }
    match again {
        None => Err("Service progress disappeared".to_owned()),
        Some(job) => {
            if job.status.active {
                Ok(job.interrupt())
            } else {
                Ok(job)
            }
        },
    }
}

/// The file of a record: what it is, how many bytes it gave, and what they hold.
pub struct RecordFile {
    pub meta: Metadata,
    pub bytes: u64,
    pub job: Result<JobStatus, String>,
}

/// The record of an operation, where there is a file of it.
pub open spec fn record_of(found: Result<Option<RecordFile>, String>, uid: u32) -> Result<
    Option<JobStatus>,
    Seq<char>,
> {
    match found {
        Err(e) => Err("Reading service progress: "@ + e@),
        Ok(None) => Ok(None),
        Ok(Some(file)) => if !(file.meta.kind == FileKind::File && file.meta.uid == uid
            && file.meta.mode & 0o077 == 0 && file.meta.len <= MAX_BYTES) {
            Err("Invalid service progress file"@)
        } else if file.bytes > MAX_BYTES {
            Err("Service progress exceeds its size limit"@)
        } else {
            match file.job {
                Err(e) => Err(e@),
                Ok(job) => if job.wf() {
                    Ok(Some(job))
                } else {
                    Err("Unsupported or inconsistent service progress record"@)
                },
            }
        },
    }
}

/// Reads the record of an operation.
fn read_record(found: Result<Option<RecordFile>, String>, uid: u32) -> (r: Result<
    Option<JobStatus>,
    String,
>)
    ensures
        outcome(r) == record_of(found, uid),
{
    match found {
        Err(e) => Err(text::worded("Reading service progress: ", e.as_str())),
        Ok(None) => Ok(None),
        Ok(Some(file)) => {
            check_file(&file.meta, uid)?;
            check_size(file.bytes)?;
            match file.job {
                Err(e) => Err(e),
                Ok(job) => {
                    job.validate()?;
                    Ok(Some(job))
                },
            }
        },
    }
}

/// What an observer found, in the order of looking: the directory, the record, the worker's lock,
/// whether that could be had, and then the record once more.
pub struct Found {
    pub directory: Metadata,
    pub record: Result<Option<RecordFile>, String>,
    pub lock: Result<Metadata, String>,
    pub free: Result<bool, String>,
    pub again: Result<Option<RecordFile>, String>,
}

/// Why an observer cannot say how an operation stands.
pub open spec fn found_complaint(found: Found, uid: u32) -> Option<Seq<char>> {
    if !(found.directory.uid == uid && found.directory.mode & 0o077 == 0) {
        Some("Service progress directory must be private and belong to this account"@)
    } else {
        match record_of(found.record, uid) {
            Err(e) => Some(e),
            Ok(None) => None,
            Ok(Some(job)) => if !job.status.active {
                None
            } else {
                match found.lock {
                    Err(e) => Some("Service progress has no worker lock: "@ + e@),
                    Ok(m) => if !(m.kind == FileKind::File && m.uid == uid && m.mode & 0o077 == 0
                        && m.nlink == 1) {
                        Some(
                            "Service progress has no worker lock: "@
                                + "Invalid service progress lock"@,
                        )
                    } else {
                        match found.free {
                            Err(e) => Some(e@),
                            Ok(false) => None,
                            Ok(true) => match record_of(found.again, uid) {
                                Err(e) => Some(e),
                                Ok(None) => Some("Service progress disappeared"@),
                                Ok(Some(_)) => None,
                            },
                        }
                    },
                }
            },
        }
    }
}

/// Whether an observer's answer is what was found.
pub open spec fn is_read(
    found: Option<Found>,
    uid: u32,
    r: Result<Option<JobStatus>, String>,
) -> bool {
    match found {
        None => r == Ok::<Option<JobStatus>, String>(None),
        Some(found) => match r {
            Err(e) => found_complaint(found, uid) == Some(e@),
            Ok(seen) => found_complaint(found, uid) is None && match (
                record_of(found.record, uid)->Ok_0,
                seen,
            ) {
                (None, seen) => seen is None,
                (Some(job), Some(seen)) => if job.status.active {
                    is_observed(
                        job,
                        found.free == Ok::<bool, String>(true),
                        record_of(found.again, uid)->Ok_0,
                        Ok(seen),
                    )
                } else {
                    seen == job
                },
                _ => false,
            },
        },
    }
}

/// How the operation of the desktop user stands: `runtime` is the user's runtime directory.
pub fn read(uid: u32, runtime: &Result<Metadata, String>, found: Option<Found>) -> (r: Result<
    Option<JobStatus>,
    String,
>)
    ensures
        match runtime_of(uid, *runtime) {
            Err(e) => r matches Err(text) && text@ == e,
            Ok(_) => is_read(found, uid, r),
        },
{
    runtime_path(uid, runtime)?;
    read_at(found, uid)
}

/// How the operation stands, by what an observer found. Without a directory there never was one.
pub fn read_at(found: Option<Found>, uid: u32) -> (r: Result<Option<JobStatus>, String>)
    ensures
        is_read(found, uid, r),
{
    let found = match found {
        None => return Ok(None),
        Some(found) => found,
    };
    check_directory(&found.directory, uid)?;
    let job = match read_record(found.record, uid)? {
        None => return Ok(None),
        Some(job) => job,
    };
    if !job.status.active {
        return Ok(Some(job));
    }
    let locked = match &found.lock {
        Err(e) => Err(e.clone()),
        Ok(m) => check_lock(m, uid),
    };
    match locked {
        Err(e) => {
            return Err(text::worded("Service progress has no worker lock: ", e.as_str()));
        },
        Ok(_) => {},
    }
    let free = match found.free {
        Err(e) => return Err(e),
        Ok(free) => free,
    };
    if !free {
        return Ok(Some(job));
    }
    let again = read_record(found.again, uid)?;
    Ok(Some(observe(job, true, again)?))
}

/// Where the progress of the desktop user is kept.
pub open spec fn runtime_of(uid: u32, found: Result<Metadata, String>) -> Result<
    Seq<char>,
    Seq<char>,
> {
    if uid == 0 {
        Err("Service jobs run under the desktop user, not root"@)
    } else {
        match found {
            Err(e) => Err(e@),
            Ok(m) => match runtime_complaint(uid, m) {
                Some(e) => Err(e),
                None => Ok(account::runtime_of(uid) + "/lianli-control"@),
            },
        }
    }
}

/// Where the progress of the desktop user is kept: `found` is the runtime directory.
pub fn runtime_path(uid: u32, found: &Result<Metadata, String>) -> (r: Result<String, String>)
    ensures
        written(r) == runtime_of(uid, *found),
{
    if uid == 0 {
        return Err("Service jobs run under the desktop user, not root".to_owned());
    }
    match found {
        Err(e) => Err(e.clone()),
        Ok(m) => {
            check_runtime(uid, m)?;
            let mut p = account::runtime_directory(uid);
            p.append("/lianli-control");
            Ok(p)
        },
    }
}

/// No other operation may run when one is submitted.
pub fn check_idle(record: &Option<JobStatus>) -> (r: Result<(), String>)
    ensures
        complaint(r) == if *record matches Some(job) && job.status.active {
            Some("Another service operation is running"@)
        } else {
            None
        },
{
    if needs_lock(record) {
        Err("Another service operation is running".to_owned())
    } else {
        Ok(())
    }
}

pub open spec fn is_program(m: Option<Metadata>) -> bool {
    m matches Some(m) && m.kind == FileKind::File && m.mode & 0o111 != 0
}

/// The helper beside the application.
pub fn check_helper(m: &Option<Metadata>) -> (r: Result<(), String>)
    ensures
        complaint(r) == if is_program(*m) {
            None
        } else {
            Some(
                "Install or build the matching lianli-control executable beside the GUI before using service controls"@,
            )
        },
{
    let there = match m {
        Some(m) => m.kind == FileKind::File && m.mode & 0o111 != 0,
        None => false,
    };
    if there {
        Ok(())
    } else {
        Err(
            "Install or build the matching lianli-control executable beside the GUI before using service controls".to_owned(),
        )
    }
}

/// The name of a new operation, by sixteen random bytes.
pub fn new_id(random: &Vec<u8>) -> (r: String)
    requires
        random@.len() == 16,
    ensures
        r@ == text::hex(random@),
        is_id(r@),
{
    proof {
        text::hex_is_hex(random@);
    }
    text::format_hex(random)
}

pub open spec fn submission_of(output: Result<Output, String>) -> Option<Seq<char>> {
    match output {
        Err(e) => Some(
            "Service worker submission was not confirmed. Recheck progress before retrying. The request was not replayed: "@
                + e@,
        ),
        Ok(o) => if o.code == Some(0i32) {
            None
        } else {
            Some(
                "Cannot start the independent service worker: "@ + text::trimmed(o.stderr@)
                    + ". Check the host user manager, systemd-run and matching control helper, then recheck progress before retrying"@,
            )
        },
    }
}

/// What came of the submission of a worker.
pub fn check_submission(output: &Result<Output, String>) -> (r: Result<(), String>)
    ensures
        complaint(r) == submission_of(*output),
{
    match output {
        Err(e) => {
            let mut text = "Service worker submission was not confirmed. Recheck progress before retrying. The request was not replayed: ".to_owned();
            text.append(e.as_str());
            Err(text)
        },
        Ok(o) => {
            if o.success() {
                return Ok(());
            }
            let mut text = "Cannot start the independent service worker: ".to_owned();
            text.append(text::trim(o.stderr.as_str()).as_str());
            text.append(
                ". Check the host user manager, systemd-run and matching control helper, then recheck progress before retrying",
            );
            Err(text)
        },
    }
}

/// Whether the submitted worker has reported, as long as there is time to wait for it.
pub fn has_reported(elapsed_ms: u64, record: &Option<JobStatus>, id: &str) -> (r: Result<bool, String>)
    ensures
        outcome(r) == if elapsed_ms >= REPORT_MS {
            Err(
                "The service worker has not reported progress. Check the host user journal for lianli-control-operation.service and recheck progress before retrying. No action was replayed"@,
            )
        } else {
            Ok(*record matches Some(job) && job.id@ == id@)
        },
{
    let late = elapsed_ms >= REPORT_MS;
    if late {
        return Err(
            "The service worker has not reported progress. Check the host user journal for lianli-control-operation.service and recheck progress before retrying. No action was replayed".to_owned(),
        );
    }
    match record {
        Some(job) => Ok(text::eq(job.id.as_str(), id)),
        None => Ok(false),
    }
}

/// The options of the manager under which a worker is started.
pub open spec fn manager_options() -> Seq<Seq<char>> {
    seq![
        "--user"@,
        "--quiet"@,
        "--collect"@,
        "--no-ask-password"@,
        "--unit=lianli-control-operation.service"@,
        "--description=Lian Li service operation"@,
        "--property=Type=exec"@,
        "--property=Restart=no"@,
        "--property=KillMode=mixed"@,
        "--property=SendSIGKILL=no"@,
        "--property=TimeoutStopSec=120s"@,
        "--property=StandardInput=null"@,
        "--property=StandardOutput=journal"@,
        "--property=StandardError=journal"@,
        "--"@,
    ]
}

/// The way into a box, where the application runs in one.
pub open spec fn entry_of(context: InstallationContext) -> Seq<Seq<char>> {
    match context {
        InstallationContext::Distrobox { name } => seq![
            "/usr/bin/env"@,
            "--unset=INVOCATION_ID"@,
            "/usr/bin/distrobox-enter"@,
            "--name"@,
            name@,
            "--"@,
        ],
        _ => Seq::empty(),
    }
}

/// The worker's own command.
pub open spec fn worker_of(request: ServiceActionRequest, helper: Seq<char>, id: Seq<char>) -> Seq<
    Seq<char>,
> {
    seq![
        helper,
        "run-service-action"@,
        "--operation-id"@,
        id,
        "--scope"@,
        request.scope.word_spec(),
        "--action"@,
        request.action.argument_spec(),
    ]
}

/// Arguments as the manager must be given them: it expands dollars, and two stand for one.
pub open spec fn doubled(args: Seq<Seq<char>>) -> Seq<Seq<char>> {
    Seq::new(args.len(), |i: int| text::replaced(args[i], '$', "$$"@))
}

pub open spec fn launch_complaint(
    context: InstallationContext,
    helper: Seq<char>,
    id: Seq<char>,
) -> Option<Seq<char>> {
    if !is_id(id) {
        Some("Invalid service operation identifier"@)
    } else if !path::is_absolute(helper) {
        Some("Service helper path must be absolute"@)
    } else {
        match context {
            InstallationContext::Native => None,
            InstallationContext::Distrobox { name } => if name@.len() > 0 && text::byte_len(name@)
                <= 256 && text::no_control(name@) {
                None
            } else {
                Some("Invalid Distrobox name"@)
            },
            InstallationContext::UnsupportedContainer => Some(
                "Service workers require a native or supported Distrobox installation"@,
            ),
        }
    }
}

pub open spec fn launch_of(
    context: InstallationContext,
    request: ServiceActionRequest,
    helper: Seq<char>,
    id: Seq<char>,
) -> Seq<Seq<char>> {
    manager_options() + doubled(entry_of(context) + worker_of(request, helper, id))
}

fn push_text(args: &mut Vec<String>, s: &str)
    ensures
        texts(final(args)@) == texts(old(args)@).push(s@),
{
    let s = s.to_owned();
    proof {
        text::texts_push(args@, s);
    }
    args.push(s);
}

fn push_doubled(args: &mut Vec<String>, s: &str)
    ensures
        texts(final(args)@) == texts(old(args)@).push(text::replaced(s@, '$', "$$"@)),
{
    let s = text::replace(s, '$', "$$");
    proof {
        text::texts_push(args@, s);
    }
    args.push(s);
}

fn options() -> (r: Vec<String>)
    ensures
        texts(r@) == manager_options(),
{
    let mut args: Vec<String> = Vec::new();
    push_text(&mut args, "--user");
    push_text(&mut args, "--quiet");
    push_text(&mut args, "--collect");
    push_text(&mut args, "--no-ask-password");
    push_text(&mut args, "--unit=lianli-control-operation.service");
    push_text(&mut args, "--description=Lian Li service operation");
    push_text(&mut args, "--property=Type=exec");
    push_text(&mut args, "--property=Restart=no");
    push_text(&mut args, "--property=KillMode=mixed");
    push_text(&mut args, "--property=SendSIGKILL=no");
    push_text(&mut args, "--property=TimeoutStopSec=120s");
    push_text(&mut args, "--property=StandardInput=null");
    push_text(&mut args, "--property=StandardOutput=journal");
    push_text(&mut args, "--property=StandardError=journal");
    push_text(&mut args, "--");
    assert(texts(args@) =~= manager_options());
    args
}

/// The arguments with which the manager starts a worker that outlives the application.
pub fn launch_arguments(
    context: &InstallationContext,
    request: ServiceActionRequest,
    helper: &str,
    id: &str,
) -> (r: Result<Vec<String>, String>)
    ensures
        match r {
            Ok(args) => launch_complaint(*context, helper@, id@) is None && texts(args@)
                == launch_of(*context, request, helper@, id@),
            Err(e) => launch_complaint(*context, helper@, id@) == Some(e@),
        },
{
    if !valid_id(id) {
        return Err("Invalid service operation identifier".to_owned());
    }
    if !path::absolute(helper) {
        return Err("Service helper path must be absolute".to_owned());
    }
    let mut args = options();
    match context {
        InstallationContext::Native => {},
        InstallationContext::Distrobox { name } => {
            if text::chars(name.as_str()).len() == 0 || text::len(name.as_str()) > 256
                || !text::printable(name.as_str()) {
                return Err("Invalid Distrobox name".to_owned());
            }
            push_doubled(&mut args, "/usr/bin/env");
            push_doubled(&mut args, "--unset=INVOCATION_ID");
            push_doubled(&mut args, "/usr/bin/distrobox-enter");
            push_doubled(&mut args, "--name");
            push_doubled(&mut args, name.as_str());
            push_doubled(&mut args, "--");
        },
        InstallationContext::UnsupportedContainer => {
            return Err(
                "Service workers require a native or supported Distrobox installation".to_owned(),
            );
        },
    }
    assert(texts(args@) =~= manager_options() + doubled(entry_of(*context)));
    push_doubled(&mut args, helper);
    push_doubled(&mut args, "run-service-action");
    push_doubled(&mut args, "--operation-id");
    push_doubled(&mut args, id);
    push_doubled(&mut args, "--scope");
    push_doubled(&mut args, request.scope.word());
    push_doubled(&mut args, "--action");
    push_doubled(&mut args, request.action.argument());
    assert(texts(args@) =~= launch_of(*context, request, helper@, id@));
    Ok(args)
}

/// An operation whose worker is gone is never reported as running, and succeeded only where the
/// worker itself recorded that.
pub proof fn abandoned_operations_never_claim_success(
    record: JobStatus,
    again: JobStatus,
    seen: JobStatus,
)
    requires
        again.wf(),
        is_observed(record, true, Some(again), Ok(seen)),
    ensures
        seen.wf(),
        !seen.status.active,
        seen.status.success == Some(true) ==> again.status.success == Some(true),
{
}

/// Where the submission of an operation stands.
#[derive(Clone, Copy, Debug, PartialEq, Eq, Structural)]
pub enum SubmitStep {
    CheckIdle,
    CheckHelper,
    ChooseIdentity,
    Submit,
    Wait,
    Submitted,
    Failed,
}

pub open spec fn submit_rank(step: SubmitStep) -> int {
    match step {
        SubmitStep::CheckIdle => 0,
        SubmitStep::CheckHelper => 1,
        SubmitStep::ChooseIdentity => 2,
        SubmitStep::Submit => 3,
        SubmitStep::Wait => 4,
        SubmitStep::Submitted => 5,
        SubmitStep::Failed => 6,
    }
}

/// The submission of an operation: it is submitted once, and waited for until its worker reports.
pub struct Submission {
    pub context: InstallationContext,
    pub request: ServiceActionRequest,
    pub helper: String,
    /// The operation's identity, once it was chosen.
    pub id: String,
    /// The arguments for the manager.
    pub arguments: Vec<String>,
    pub step: SubmitStep,
    pub error: String,
    /// The steps that succeeded, in order.
    pub log: Ghost<Seq<SubmitStep>>,
}

pub open spec fn submit_stops(before: Submission, after: Submission, text: Seq<char>) -> bool {
    after == (Submission { step: SubmitStep::Failed, error: after.error, ..before })
        && after.error@ == text
}

pub open spec fn submit_moves(before: Submission, after: Submission, next: SubmitStep) -> bool {
    after == (Submission { step: next, log: Ghost(before.log@.push(before.step)), ..before })
}

impl Submission {
    /// Every step before the present one succeeded.
    pub open spec fn wf(self) -> bool {
        self.step != SubmitStep::Failed ==> {
            &&& forall|s: SubmitStep|
                submit_rank(s) < submit_rank(self.step) ==> #[trigger] self.log@.contains(s)
            &&& submit_rank(self.step) > 2 ==> is_id(self.id@) && texts(self.arguments@) == launch_of(
                self.context,
                self.request,
                self.helper@,
                self.id@,
            )
        }
    }

    pub fn begin(context: InstallationContext, request: ServiceActionRequest, helper: String) -> (r: Submission)
        ensures
            r.wf(),
            r.context == context,
            r.request == request,
            r.helper == helper,
            r.step == SubmitStep::CheckIdle,
            r.log@ == Seq::<SubmitStep>::empty(),
            r.id@.len() == 0,
            r.arguments@.len() == 0,
    {
        Submission {
            context,
            request,
            helper,
            id: String::new(),
            arguments: Vec::new(),
            step: SubmitStep::CheckIdle,
            error: String::new(),
            log: Ghost(Seq::empty()),
        }
    }

    fn advance(&mut self, next: SubmitStep)
        requires
            (Submission {
                step: next,
                log: Ghost(old(self).log@.push(old(self).step)),
                ..*old(self)
            }).wf(),
        ensures
            final(self).wf(),
            submit_moves(*old(self), *final(self), next),
    {
        self.log = Ghost(self.log@.push(self.step));
        self.step = next;
    }

    /// A step could not be done.
    pub fn failed(&mut self, reason: &str)
        ensures
            final(self).wf(),
            submit_stops(*old(self), *final(self), reason@),
    {
        self.step = SubmitStep::Failed;
        self.error = reason.to_owned();
    }

    /// The record of an earlier operation was read.
    pub fn idle(&mut self, record: &Option<JobStatus>)
        requires
            old(self).wf(),
            old(self).step == SubmitStep::CheckIdle,
        ensures
            final(self).wf(),
            match if *record matches Some(job) && job.status.active {
                Some("Another service operation is running"@)
            } else {
                None::<Seq<char>>
            } {
                Some(e) => submit_stops(*old(self), *final(self), e),
                None => submit_moves(*old(self), *final(self), SubmitStep::CheckHelper),
            },
    {
        match check_idle(record) {
            Err(e) => {
                self.failed(e.as_str());
            },
            Ok(_) => {
                proof {
                    steps::push_holds(self.log@, self.step);
                }
                self.advance(SubmitStep::CheckHelper);
            },
        }
    }

    /// The helper beside the application was looked for.
    pub fn helper(&mut self, m: &Option<Metadata>)
        requires
            old(self).wf(),
            old(self).step == SubmitStep::CheckHelper,
        ensures
            final(self).wf(),
            match if is_program(*m) {
                None::<Seq<char>>
            } else {
                Some(
                    "Install or build the matching lianli-control executable beside the GUI before using service controls"@,
                )
            } {
                Some(e) => submit_stops(*old(self), *final(self), e),
                None => submit_moves(*old(self), *final(self), SubmitStep::ChooseIdentity),
            },
    {
        match check_helper(m) {
            Err(e) => {
                self.failed(e.as_str());
            },
            Ok(_) => {
                proof {
                    steps::push_holds(self.log@, self.step);
                }
                self.advance(SubmitStep::ChooseIdentity);
            },
        }
    }

    /// Random bytes were drawn for the identity.
    pub fn identity(&mut self, random: &Vec<u8>)
        requires
            old(self).wf(),
            old(self).step == SubmitStep::ChooseIdentity,
            random@.len() == 16,
        ensures
            final(self).wf(),
            match launch_complaint(old(self).context, old(self).helper@, text::hex(random@)) {
                Some(e) => submit_stops(*old(self), *final(self), e),
                None => {
                    &&& *final(self) == (Submission {
                        id: final(self).id,
                        arguments: final(self).arguments,
                        step: SubmitStep::Submit,
                        log: Ghost(old(self).log@.push(old(self).step)),
                        ..*old(self)
                    })
                    &&& final(self).id@ == text::hex(random@)
                },
            },
    {
        let id = new_id(random);
        match launch_arguments(&self.context, self.request, self.helper.as_str(), id.as_str()) {
            Err(e) => {
                self.failed(e.as_str());
            },
            Ok(arguments) => {
                self.arguments = arguments;
                self.id = id;
                proof {
                    steps::push_holds(self.log@, self.step);
                }
                self.advance(SubmitStep::Submit);
            },
        }
    }

    /// The manager was asked to start the worker.
    pub fn submitted(&mut self, output: &Result<Output, String>)
        requires
            old(self).wf(),
            old(self).step == SubmitStep::Submit,
        ensures
            final(self).wf(),
            match submission_of(*output) {
                Some(e) => submit_stops(*old(self), *final(self), e),
                None => submit_moves(*old(self), *final(self), SubmitStep::Wait),
            },
    {
        match check_submission(output) {
            Err(e) => {
                self.failed(e.as_str());
            },
            Ok(_) => {
                proof {
                    steps::push_holds(self.log@, self.step);
                }
                self.advance(SubmitStep::Wait);
            },
        }
    }

    /// A round of waiting: whether the time is up, and otherwise the record as it stands.
    pub fn waited(&mut self, elapsed_ms: u64, record: &Option<JobStatus>)
        requires
            old(self).wf(),
            old(self).step == SubmitStep::Wait,
        ensures
            final(self).wf(),
            if elapsed_ms >= REPORT_MS {
                submit_stops(
                    *old(self),
                    *final(self),
                    "The service worker has not reported progress. Check the host user journal for lianli-control-operation.service and recheck progress before retrying. No action was replayed"@,
                )
            } else if *record matches Some(job) && job.id@ == old(self).id@ {
                submit_moves(*old(self), *final(self), SubmitStep::Submitted)
            } else {
                *final(self) == *old(self)
            },
    {
        let late = elapsed_ms >= REPORT_MS;
        match has_reported(elapsed_ms, record, self.id.as_str()) {
            Err(e) => {
                self.failed(e.as_str());
            },
            Ok(true) => {
                proof {
                    steps::push_holds(self.log@, self.step);
                }
                self.advance(SubmitStep::Submitted);
            },
            Ok(false) => {},
        }
    }
}

/// An operation counts as submitted only after its worker reported under its identity.
pub proof fn submitted_operations_report(m: Submission)
    requires
        m.wf(),
        m.step == SubmitStep::Submitted,
    ensures
        m.log@.contains(SubmitStep::CheckIdle),
        m.log@.contains(SubmitStep::Submit),
        m.log@.contains(SubmitStep::Wait),
{
}

/// Where the worker of an operation stands.
#[derive(Clone, Copy, Debug, PartialEq, Eq, Structural)]
pub enum WorkerStep {
    CheckRuntime,
    CheckDirectory,
    CheckLock,
    TakeLock,
    MeasureActive,
    WriteActive,
    Work,
    MeasureResult,
    WriteResult,
    Finished,
    Failed,
}

pub open spec fn worker_rank(step: WorkerStep) -> int {
    match step {
        WorkerStep::CheckRuntime => 0,
        WorkerStep::CheckDirectory => 1,
        WorkerStep::CheckLock => 2,
        WorkerStep::TakeLock => 3,
        WorkerStep::MeasureActive => 4,
        WorkerStep::WriteActive => 5,
        WorkerStep::Work => 6,
        WorkerStep::MeasureResult => 7,
        WorkerStep::WriteResult => 8,
        WorkerStep::Finished => 9,
        WorkerStep::Failed => 10,
    }
}

/// The worker of an operation: it reports under a lock, from before the operation begins until its
/// result is saved.
pub struct Worker {
    pub job: JobStatus,
    /// What came of the operation.
    pub result: Result<String, String>,
    pub step: WorkerStep,
    pub error: String,
    /// The steps that succeeded, in order.
    pub log: Ghost<Seq<WorkerStep>>,
}

pub open spec fn worker_stops(before: Worker, after: Worker, text: Seq<char>) -> bool {
    after == (Worker { step: WorkerStep::Failed, error: after.error, ..before })
        && after.error@ == text
}

pub open spec fn worker_moves(before: Worker, after: Worker, next: WorkerStep) -> bool {
    after == (Worker { step: next, log: Ghost(before.log@.push(before.step)), ..before })
}

impl Worker {
    /// Every step before the present one succeeded.
    pub open spec fn wf(self) -> bool {
        self.step != WorkerStep::Failed ==> {
            &&& forall|s: WorkerStep|
                worker_rank(s) < worker_rank(self.step) ==> #[trigger] self.log@.contains(s)
            &&& self.job.wf()
            &&& worker_rank(self.step) < 7 ==> self.job.status.active
            &&& worker_rank(self.step) >= 7 ==> self.job.status.success == Some(self.result is Ok)
        }
    }

    fn advance(&mut self, next: WorkerStep)
        requires
            (Worker {
                step: next,
                log: Ghost(old(self).log@.push(old(self).step)),
                ..*old(self)
            }).wf(),
        ensures
            final(self).wf(),
            worker_moves(*old(self), *final(self), next),
    {
        self.log = Ghost(self.log@.push(self.step));
        self.step = next;
    }

    /// A step could not be done.
    pub fn failed(&mut self, reason: &str)
        ensures
            final(self).wf(),
            worker_stops(*old(self), *final(self), reason@),
    {
        self.step = WorkerStep::Failed;
        self.error = reason.to_owned();
    }

    pub fn begin(id: &str, request: ServiceActionRequest) -> (r: Result<Worker, String>)
        ensures
            match r {
                Ok(worker) => {
                    &&& is_id(id@)
                    &&& worker.wf()
                    &&& worker.job.id@ == id@
                    &&& worker.job.request == request
                    &&& worker.job.updated_at_ms == 0
                    &&& worker.job.status.message@ == "Checking service state…"@
                    &&& worker.step == WorkerStep::CheckRuntime
                    &&& worker.log@ == Seq::<WorkerStep>::empty()
                },
                Err(e) => !is_id(id@) && e@ == "Invalid service operation identifier"@,
            },
    {
        let job = JobStatus::begin(id, request)?;
        Ok(
            Worker {
                job,
                result: Err(String::new()),
                step: WorkerStep::CheckRuntime,
                error: String::new(),
                log: Ghost(Seq::empty()),
            },
        )
    }

    /// The user's runtime directory was looked at, without following links.
    pub fn runtime(&mut self, uid: u32, m: &Metadata)
        requires
            old(self).wf(),
            old(self).step == WorkerStep::CheckRuntime,
        ensures
            final(self).wf(),
            match runtime_complaint(uid, *m) {
                Some(e) => worker_stops(*old(self), *final(self), e),
                None => worker_moves(*old(self), *final(self), WorkerStep::CheckDirectory),
            },
    {
        match check_runtime(uid, m) {
            Err(e) => {
                self.failed(e.as_str());
            },
            Ok(_) => {
                proof {
                    steps::push_holds(self.log@, self.step);
                }
                self.advance(WorkerStep::CheckDirectory);
            },
        }
    }

    /// The directory of the record exists and was opened.
    pub fn directory(&mut self, m: &Metadata, uid: u32)
        requires
            old(self).wf(),
            old(self).step == WorkerStep::CheckDirectory,
        ensures
            final(self).wf(),
            match if m.uid == uid && m.mode & 0o077 == 0 {
                None::<Seq<char>>
            } else {
                Some("Service progress directory must be private and belong to this account"@)
            } {
                Some(e) => worker_stops(*old(self), *final(self), e),
                None => worker_moves(*old(self), *final(self), WorkerStep::CheckLock),
            },
    {
        match check_directory(m, uid) {
            Err(e) => {
                self.failed(e.as_str());
            },
            Ok(_) => {
                proof {
                    steps::push_holds(self.log@, self.step);
                }
                self.advance(WorkerStep::CheckLock);
            },
        }
    }

    /// The worker's lock was opened.
    pub fn lock(&mut self, m: &Metadata, uid: u32)
        requires
            old(self).wf(),
            old(self).step == WorkerStep::CheckLock,
        ensures
            final(self).wf(),
            match if m.kind == FileKind::File && m.uid == uid && m.mode & 0o077 == 0 && m.nlink == 1 {
                None::<Seq<char>>
            } else {
                Some("Invalid service progress lock"@)
            } {
                Some(e) => worker_stops(*old(self), *final(self), e),
                None => worker_moves(*old(self), *final(self), WorkerStep::TakeLock),
            },
    {
        match check_lock(m, uid) {
            Err(e) => {
                self.failed(e.as_str());
            },
            Ok(_) => {
                proof {
                    steps::push_holds(self.log@, self.step);
                }
                self.advance(WorkerStep::TakeLock);
            },
        }
    }

    /// The lock was tried for.
    pub fn locked(&mut self, locked: bool)
        requires
            old(self).wf(),
            old(self).step == WorkerStep::TakeLock,
        ensures
            final(self).wf(),
            match if locked {
                None::<Seq<char>>
            } else {
                Some("Another service worker owns progress"@)
            } {
                Some(e) => worker_stops(*old(self), *final(self), e),
                None => worker_moves(*old(self), *final(self), WorkerStep::MeasureActive),
            },
    {
        match (if locked {
            Ok::<(), String>(())
        } else {
            Err("Another service worker owns progress".to_owned())
        }) {
            Err(e) => {
                self.failed(e.as_str());
            },
            Ok(_) => {
                proof {
                    steps::push_holds(self.log@, self.step);
                }
                self.advance(WorkerStep::MeasureActive);
            },
        }
    }

    /// How many bytes the record of the running operation takes, before it is written.
    pub fn measured(&mut self, size: u64)
        requires
            old(self).wf(),
            old(self).step == WorkerStep::MeasureActive,
        ensures
            final(self).wf(),
            if size <= MAX_BYTES {
                worker_moves(*old(self), *final(self), WorkerStep::WriteActive)
            } else {
                worker_stops(*old(self), *final(self), "Service progress exceeds its size limit"@)
            },
    {
        match check_size(size) {
            Err(e) => {
                self.failed(e.as_str());
            },
            Ok(_) => {
                proof {
                    steps::push_holds(self.log@, self.step);
                }
                self.advance(WorkerStep::WriteActive);
            },
        }
    }

    /// The record of the running operation was written and made durable.
    pub fn active(&mut self)
        requires
            old(self).wf(),
            old(self).step == WorkerStep::WriteActive,
        ensures
            final(self).wf(),
            worker_moves(*old(self), *final(self), WorkerStep::Work),
    {
        proof {
            steps::push_holds(self.log@, self.step);
        }
        self.advance(WorkerStep::Work);
    }

    /// The operation says how far it is.
    pub fn report(&mut self, message: &str)
        requires
            old(self).wf(),
            old(self).step == WorkerStep::Work,
        ensures
            final(self).wf(),
            *final(self) == (Worker { job: final(self).job, ..*old(self) }),
            final(self).job == (JobStatus {
                status: ServiceOperationStatus {
                    message: final(self).job.status.message,
                    ..old(self).job.status
                },
                ..old(self).job
            }),
            final(self).job.status.message@ == text::cut(message@, MAX_MESSAGE as int),
    {
        self.job.report(message);
    }

    /// The operation ended.
    pub fn ended(&mut self, result: Result<String, String>)
        requires
            old(self).wf(),
            old(self).step == WorkerStep::Work,
        ensures
            final(self).wf(),
            *final(self) == (Worker {
                job: final(self).job,
                result,
                step: WorkerStep::MeasureResult,
                log: Ghost(old(self).log@.push(old(self).step)),
                ..*old(self)
            }),
            final(self).job == (JobStatus {
                status: ServiceOperationStatus {
                    active: false,
                    success: Some(result is Ok),
                    message: final(self).job.status.message,
                },
                ..old(self).job
            }),
            final(self).job.status.message@ == text::cut(
                match result {
                    Ok(message) => message@,
                    Err(e) => e@,
                },
                MAX_MESSAGE as int,
            ),
    {
        self.job.finish(&result);
        self.result = result;
        proof {
            steps::push_holds(self.log@, self.step);
        }
        self.advance(WorkerStep::MeasureResult);
    }

    /// How many bytes the record of the result takes, before it is written.
    pub fn result_measured(&mut self, size: u64)
        requires
            old(self).wf(),
            old(self).step == WorkerStep::MeasureResult,
        ensures
            final(self).wf(),
            if size <= MAX_BYTES {
                worker_moves(*old(self), *final(self), WorkerStep::WriteResult)
            } else {
                worker_stops(
                    *old(self),
                    *final(self),
                    "Service action finished but its result could not be saved. Recheck actual services: "@
                        + "Service progress exceeds its size limit"@,
                )
            },
    {
        match prefix(
            "Service action finished but its result could not be saved. Recheck actual services: ",
            &check_size(size),
        ) {
            Err(e) => {
                self.failed(e.as_str());
            },
            Ok(_) => {
                proof {
                    steps::push_holds(self.log@, self.step);
                }
                self.advance(WorkerStep::WriteResult);
            },
        }
    }

    /// The record of the result was written and made durable, or could not be.
    pub fn saved(&mut self, result: &Result<(), String>)
        requires
            old(self).wf(),
            old(self).step == WorkerStep::WriteResult,
        ensures
            final(self).wf(),
            match prefixed(
                "Service action finished but its result could not be saved. Recheck actual services: "@,
                *result,
            ) {
                Some(e) => worker_stops(*old(self), *final(self), e),
                None => worker_moves(*old(self), *final(self), WorkerStep::Finished),
            },
    {
        match prefix(
            "Service action finished but its result could not be saved. Recheck actual services: ",
            result,
        ) {
            Err(e) => {
                self.failed(e.as_str());
            },
            Ok(_) => {
                proof {
                    steps::push_holds(self.log@, self.step);
                }
                self.advance(WorkerStep::Finished);
            },
        }
    }
}

/// An operation runs only under the worker's lock, after its record says so; a record is written only
/// after it was found small enough.
pub proof fn operations_run_under_the_lock(m: Worker)
    requires
        m.wf(),
        worker_rank(WorkerStep::Work) <= worker_rank(m.step) <= worker_rank(WorkerStep::Finished),
    ensures
        m.log@.contains(WorkerStep::TakeLock),
        m.log@.contains(WorkerStep::MeasureActive),
        m.log@.contains(WorkerStep::WriteActive),
        worker_rank(m.step) >= worker_rank(WorkerStep::WriteResult) ==> m.log@.contains(
            WorkerStep::MeasureResult,
        ),
{
}

/// A record is valid exactly where it is of the first version, under a name of 32 digits, and is
/// active as long as it has no result.
pub proof fn valid_records_are_active_or_ended(job: JobStatus)
    ensures
        job.wf() <==> job.version == 1 && text::hex_of_len(job.id@, 32) && (job.status.active
            <==> job.status.success is None),
{
}

/// Progress of the desktop user is kept exactly in a private directory of an account that is not
/// root's, and always at the same place for one account.
pub proof fn progress_is_kept_in_private(uid: u32, m: Metadata, found: Result<Metadata, String>)
    ensures
        runtime_complaint(uid, m) is None <==> uid != 0 && m.kind == FileKind::Directory && m.uid == uid
            && m.mode & 0o077 == 0,
        runtime_of(uid, found) is Ok <==> found is Ok && runtime_complaint(uid, found->Ok_0) is None,
        runtime_of(uid, found) is Ok ==> runtime_of(uid, found)->Ok_0 == "/run/user/"@
            + text::decimal(uid as nat) + "/lianli-control"@,
{
}

/// A record is read exactly where there is none, or a private file of the account within its size
/// holds a valid one. It is that one.
pub proof fn records_are_read_from_private_files(
    found: Result<Option<RecordFile>, String>,
    uid: u32,
)
    ensures
        ({
            let read = record_of(found, uid);
            let file = found->Ok_0->0;
            &&& read is Ok <==> {
                &&& found is Ok
                &&& found->Ok_0 is Some ==> {
                    &&& file.meta.kind == FileKind::File
                    &&& file.meta.uid == uid
                    &&& file.meta.mode & 0o077 == 0
                    &&& file.meta.len <= 16_384
                    &&& file.bytes <= 16_384
                    &&& file.job is Ok
                    &&& file.job->Ok_0.wf()
                }
            }
            &&& read is Ok ==> (read->Ok_0 is Some <==> found->Ok_0 is Some)
            &&& read is Ok && found->Ok_0 is Some ==> read->Ok_0 == Some(file.job->Ok_0)
        }),
{
}

/// What an observer sees of an active operation is the record itself while its worker holds the lock.
/// Once the lock is free the record that was read after that counts, and one that is still active
/// was abandoned and failed.
pub proof fn observers_wait_for_the_worker(
    record: JobStatus,
    free: bool,
    again: Option<JobStatus>,
    r: Result<JobStatus, String>,
)
    requires
        record.status.active,
        is_observed(record, free, again, r),
    ensures
        !free ==> r == Ok::<JobStatus, String>(record),
        free && again is Some && !again->0.status.active ==> r == Ok::<JobStatus, String>(again->0),
        free && again is Some && again->0.status.active ==> r is Ok && !r->Ok_0.status.active
            && r->Ok_0.status.success == Some(false) && r->Ok_0.id == again->0.id,
        r is Err <==> free && again is None,
{
}

/// An observer can say how an operation stands exactly where the directory is private and the record
/// can be read, and, if that is active, the lock is a private file of one name that could be tried,
/// and the record is still there once the lock is free.
pub proof fn observers_look_in_order(found: Found, uid: u32)
    ensures
        found_complaint(found, uid) is None <==> {
            let record = record_of(found.record, uid);
            let lock = found.lock->Ok_0;
            &&& found.directory.uid == uid
            &&& found.directory.mode & 0o077 == 0
            &&& record is Ok
            &&& record->Ok_0 is Some && record->Ok_0->0.status.active ==> {
                &&& found.lock is Ok
                &&& lock.kind == FileKind::File && lock.uid == uid && lock.mode & 0o077 == 0
                    && lock.nlink == 1
                &&& found.free is Ok
                &&& found.free->Ok_0 ==> record_of(found.again, uid) is Ok && record_of(
                    found.again,
                    uid,
                )->Ok_0 is Some
            }
        },
{
}

/// A worker can be started exactly under a valid name, by an absolute path, on the host or in a box
/// whose name is a short text without control characters.
pub proof fn workers_start_on_the_host_or_in_a_box(
    context: InstallationContext,
    helper: Seq<char>,
    id: Seq<char>,
)
    ensures
        launch_complaint(context, helper, id) is None <==> {
            &&& text::hex_of_len(id, 32)
            &&& path::is_absolute(helper)
            &&& match context {
                InstallationContext::Native => true,
                InstallationContext::Distrobox { name } => name@.len() > 0 && text::byte_len(name@)
                    <= 256 && text::no_control(name@),
                InstallationContext::UnsupportedContainer => false,
            }
        },
{
}

/// A worker is told its operation, the service and the action, and a box is entered first exactly
/// where the application runs in one. No two requests are told alike.
pub proof fn workers_are_told_their_request(
    context: InstallationContext,
    a: ServiceActionRequest,
    b: ServiceActionRequest,
    helper: Seq<char>,
    id: Seq<char>,
)
    ensures
        ({
            let told = worker_of(a, helper, id);
            &&& told[0] == helper
            &&& told[3] == id
            &&& told[5] == a.scope.word_spec()
            &&& told[7] == a.action.argument_spec()
        }),
        entry_of(context).len() > 0 <==> context is Distrobox,
        context matches InstallationContext::Distrobox { name } ==> entry_of(context)[4] == name@,
        launch_of(context, a, helper, id).len() == manager_options().len() + entry_of(context).len()
            + 8,
        a != b ==> worker_of(a, helper, id) != worker_of(b, helper, id),
{
    reveal_strlit("start");
    reveal_strlit("stop");
    reveal_strlit("restart");
    reveal_strlit("user");
    reveal_strlit("system");
    assert("start"@[2] == 'a' && "start"@[0] == 's');
    assert("stop"@[2] == 'o' && "stop"@[0] == 's');
    assert("restart"@[0] == 'r');
    assert("user"@[0] == 'u');
    assert("system"@[0] == 's');
    let x = worker_of(a, helper, id);
    let y = worker_of(b, helper, id);
    if a.scope != b.scope {
        assert(x[5] != y[5]);
    }
    if a.action != b.action {
        assert(x[7] != y[7]);
    }
}

/// A worker was submitted exactly where the manager could be asked and said so. A helper is one
/// exactly where it is a regular file that somebody may execute.
pub proof fn workers_are_submitted_by_success(output: Result<Output, String>, m: Option<Metadata>)
    ensures
        submission_of(output) is None <==> output is Ok && output->Ok_0.code == Some(0i32),
        is_program(m) <==> m is Some && m->0.kind == FileKind::File && m->0.mode & 0o111 != 0,
{
}

/// What an observer answers is what was found: nothing where nothing is recorded, a record that ended as
/// it is, and an active one as its lock says.
pub proof fn observers_answer_what_was_found(
    found: Option<Found>,
    uid: u32,
    r: Result<Option<JobStatus>, String>,
)
    requires
        is_read(found, uid, r),
    ensures
        found is None ==> r == Ok::<Option<JobStatus>, String>(None),
        found is Some ==> (r is Err <==> found_complaint(found->0, uid) is Some),
        found is Some && r is Ok ==> (r->Ok_0 is Some <==> record_of(found->0.record, uid)->Ok_0 is Some),
        found is Some && r is Ok && r->Ok_0 is Some && !record_of(
            found->0.record,
            uid,
        )->Ok_0->0.status.active ==> r->Ok_0 == record_of(found->0.record, uid)->Ok_0,
        found is Some && r is Ok && r->Ok_0 is Some && record_of(
            found->0.record,
            uid,
        )->Ok_0->0.status.active && found->0.free == Ok::<bool, String>(false) ==> r->Ok_0
            == record_of(found->0.record, uid)->Ok_0,
{
}

} // verus!
