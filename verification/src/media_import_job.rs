//! The record of a managed import that runs on its own.

use crate::container_destination::complaint;
use crate::files::{FileKind, Metadata};
use crate::media_import::{same_published, PublishedSelection};
use crate::media_ownership::valid_id;
use crate::media_publication::{directory_complaint, open_directory};
use crate::steps;
use crate::text;
use vstd::prelude::*;

verus! {

/// The largest record, in bytes.
pub const LIMIT: u64 = 17_825_792;

/// The longest error, in characters.
pub const MAX_ERROR: usize = 2048;

/// How an import stands.
#[derive(Clone, Debug)]
pub struct Status {
    pub version: u32,
    pub id: String,
    pub active: bool,
    pub result: Option<PublishedSelection>,
    pub error: Option<String>,
}

/// What speaks against the directory of the record.
pub open spec fn job_directory_complaint(m: Metadata, uid: u32) -> Option<Seq<char>> {
    match directory_complaint(m, uid) {
        Some(e) => Some(e),
        None => if m.mode & 0o077 == 0 {
            None
        } else {
            Some("Import job directory must be private"@)
        },
    }
}

pub fn check_directory(m: &Metadata, uid: u32) -> (r: Result<(), String>)
    ensures
        complaint(r) == job_directory_complaint(*m, uid),
{
    open_directory(m, uid)?;
    if m.mode & 0o077 == 0 {
        Ok(())
    } else {
        Err("Import job directory must be private".to_owned())
    }
}

/// A private file of this account, known by one name only and of a limited size.
pub open spec fn is_job_file(m: Metadata, uid: u32) -> bool {
    m.kind == FileKind::File && m.uid == uid && m.mode & 0o077 == 0 && m.nlink == 1 && m.len
        <= LIMIT
}

pub fn check_file(m: &Metadata, uid: u32) -> (r: Result<(), String>)
    ensures
        complaint(r) == if is_job_file(*m, uid) {
            None
        } else {
            Some("Import job file has unsafe ownership, type, links or size"@)
        },
{
    if m.kind == FileKind::File && m.uid == uid && m.mode & 0o077 == 0 && m.nlink == 1 && m.len
        <= LIMIT {
        Ok(())
    } else {
        Err("Import job file has unsafe ownership, type, links or size".to_owned())
    }
}

/// The size of a record to be written.
pub fn check_written(size: u64) -> (r: Result<(), String>)
    ensures
        complaint(r) == if size <= LIMIT {
            None
        } else {
            Some("Import job result exceeds 17 MiB"@)
        },
{
    if size <= LIMIT {
        Ok(())
    } else {
        Err("Import job result exceeds 17 MiB".to_owned())
    }
}

/// The size of a record that was read.
pub fn check_read(size: u64) -> (r: Result<(), String>)
    ensures
        complaint(r) == if size <= LIMIT {
            None
        } else {
            Some("Import job status grew beyond its limit"@)
        },
{
    if size <= LIMIT {
        Ok(())
    } else {
        Err("Import job status grew beyond its limit".to_owned())
    }
}

/// A worker begins only where it has the lock alone.
pub fn check_alone(locked: bool) -> (r: Result<(), String>)
    ensures
        complaint(r) == if locked {
            None
        } else {
            Some("A managed import worker is already active"@)
        },
{
    if locked {
        Ok(())
    } else {
        Err("A managed import worker is already active".to_owned())
    }
}

/// What a finished import says of itself.
pub open spec fn is_finished(
    id: Seq<char>,
    result: Result<PublishedSelection, String>,
    status: Status,
) -> bool {
    &&& status.version == 1
    &&& status.id@ == id
    &&& !status.active
    &&& match result {
        Ok(published) => if published.import_id@ == id {
            status.result == Some(published) && status.error is None
        } else {
            status.result is None && status.error is Some && status.error->0@
                == "Import helper returned a different identity. Inspect storage before retrying"@
        },
        Err(e) => status.result is None && status.error is Some && status.error->0@ == text::cut(
            e@,
            MAX_ERROR as int,
        ),
    }
}

/// Whether a record tells what came of an import.
pub open spec fn tells(
    status: Status,
    id: Seq<char>,
    outcome: Result<PublishedSelection, String>,
) -> bool {
    &&& status.version == 1
    &&& status.id@ == id
    &&& !status.active
    &&& match outcome {
        Ok(published) => if published.import_id@ == id {
            status.result is Some && same_published(published, status.result->0)
                && status.error is None
        } else {
            status.result is None && status.error is Some && status.error->0@
                == "Import helper returned a different identity. Inspect storage before retrying"@
        },
        Err(e) => status.result is None && status.error is Some && status.error->0@ == text::cut(
            e@,
            MAX_ERROR as int,
        ),
    }
}

/// What an observer makes of a valid record: `free` says whether the worker's lock could be had.
pub open spec fn is_observed(status: Status, free: bool, seen: Status) -> bool {
    if !free {
        seen == (Status { active: true, result: None, error: None, ..status })
    } else if status.active {
        seen == (Status { active: false, error: seen.error, ..status }) && seen.error is Some
            && seen.error->0@
            == "Import worker stopped. Files may have been copied. Inspect storage before retrying."@
    } else {
        seen == status
    }
}

impl Status {
    /// A record that agrees with itself: it is active without a result, or has either a result of its
    /// own or an error.
    pub open spec fn wf(self) -> bool {
        &&& self.version == 1
        &&& valid_id(self.id@)
        &&& if self.active {
            self.result is None && self.error is None
        } else {
            (self.result is Some) != (self.error is Some)
        }
        &&& self.result is Some ==> self.result->0.import_id@ == self.id@
        &&& self.error is Some ==> self.error->0@.len() <= MAX_ERROR
    }

    /// The record of an import that begins.
    pub fn begin(id: &str) -> (r: Result<Status, String>)
        ensures
            match r {
                Ok(status) => valid_id(id@) && status.wf() && status.id@ == id@ && status.active,
                Err(e) => !valid_id(id@) && e@ == "Invalid import job identity"@,
            },
    {
        if !text::is_hex_of_len(id, 32) {
            return Err("Invalid import job identity".to_owned());
        }
        Ok(Status { version: 1, id: id.to_owned(), active: true, result: None, error: None })
    }

    /// The record of an import that ended.
    pub fn finish(id: &str, result: Result<PublishedSelection, String>) -> (r: Status)
        ensures
            is_finished(id@, result, r),
    {
        match result {
            Ok(published) => {
                if text::eq(published.import_id.as_str(), id) {
                    Status {
                        version: 1,
                        id: id.to_owned(),
                        active: false,
                        result: Some(published),
                        error: None,
                    }
                } else {
                    Status {
                        version: 1,
                        id: id.to_owned(),
                        active: false,
                        result: None,
                        error: Some(
                            "Import helper returned a different identity. Inspect storage before retrying".to_owned(),
                        ),
                    }
                }
            },
            Err(e) => Status {
                version: 1,
                id: id.to_owned(),
                active: false,
                result: None,
                error: Some(text::take(e.as_str(), MAX_ERROR)),
            },
        }
    }

    /// Whether a record that was read may be used. `selection` is what the check of the published
    /// selection gave, where there is one.
    pub fn validate(&self, selection: &Result<(), String>) -> (r: Result<(), String>)
        ensures
            complaint(r) == if self.result is Some && *selection is Err {
                Some((*selection)->Err_0@)
            } else if !self.wf() {
                Some("Invalid import job status"@)
            } else {
                None
            },
    {
        match (&self.result, selection) {
            (Some(_), Err(e)) => {
                return Err(e.clone());
            },
            _ => {},
        }
        let consistent = if self.active {
            self.result.is_none() && self.error.is_none()
        } else {
            self.result.is_some() != self.error.is_some()
        };
        let own = match &self.result {
            Some(published) => text::eq(published.import_id.as_str(), self.id.as_str()),
            None => true,
        };
        let bounded = match &self.error {
            Some(e) => text::chars(e.as_str()).len() <= MAX_ERROR,
            None => true,
        };
        if self.version == 1 && text::is_hex_of_len(self.id.as_str(), 32) && consistent && own
            && bounded {
            Ok(())
        } else {
            Err("Invalid import job status".to_owned())
        }
    }

    /// What an observer makes of the record.
    pub fn observe(self, free: bool) -> (r: Status)
        ensures
            is_observed(self, free, r),
    {
        if !free {
            Status { active: true, result: None, error: None, ..self }
        } else if self.active {
            Status {
                active: false,
                error: Some(
                    "Import worker stopped. Files may have been copied. Inspect storage before retrying.".to_owned(),
                ),
                ..self
            }
        } else {
            self
        }
    }
}

/// An import whose worker is gone is never reported as running, and as published only where the
/// worker itself recorded that. One whose worker lives has no result yet.
pub proof fn abandoned_imports_never_claim_success(status: Status, free: bool, seen: Status)
    requires
        status.wf(),
        is_observed(status, free, seen),
    ensures
        seen.active == !free,
        seen.result is Some ==> free && seen.result == status.result && !status.active,
        !seen.active ==> (seen.result is Some) != (seen.error is Some),
{
}

/// What a worker records at the end can be read again.
pub proof fn finished_records_are_valid(
    id: Seq<char>,
    result: Result<PublishedSelection, String>,
    status: Status,
)
    requires
        valid_id(id),
        is_finished(id, result, status),
    ensures
        status.wf(),
{
    reveal_strlit("Import helper returned a different identity. Inspect storage before retrying");
}

/// What an observer found, in the order of looking: the directory, the worker's lock, whether that
/// could
/// be had, the file of the record, its size, and what it holds.
pub struct Found {
    pub directory: Metadata,
    pub lock: Option<Metadata>,
    pub free: bool,
    pub file: Metadata,
    pub size: u64,
    pub status: Result<Status, String>,
}

pub open spec fn found_complaint(found: Found, uid: u32, selection: Result<(), String>) -> Option<
    Seq<char>,
> {
    if job_directory_complaint(found.directory, uid) is Some {
        job_directory_complaint(found.directory, uid)
    } else if !(found.lock matches Some(m) ==> is_job_file(m, uid)) {
        Some("Import job file has unsafe ownership, type, links or size"@)
    } else if found.lock is None {
        None
    } else if !is_job_file(found.file, uid) {
        Some("Import job file has unsafe ownership, type, links or size"@)
    } else if found.size > LIMIT {
        Some("Import job status grew beyond its limit"@)
    } else {
        match found.status {
            Err(e) => Some(e@),
            Ok(status) => if status.result is Some && selection is Err {
                Some(selection->Err_0@)
            } else if !status.wf() {
                Some("Invalid import job status"@)
            } else {
                None
            },
        }
    }
}

/// How an import stands, by what an observer found. Without a directory or a lock there never was one.
/// `selection` is what the check of the published selection gave, where there is one.
pub fn read(found: Option<Found>, uid: u32, selection: &Result<(), String>) -> (r: Result<
    Option<Status>,
    String,
>)
    ensures
        match found {
            None => r == Ok::<Option<Status>, String>(None),
            Some(found) => match r {
                Err(e) => found_complaint(found, uid, *selection) == Some(e@),
                Ok(None) => found_complaint(found, uid, *selection) is None && found.lock is None,
                Ok(Some(seen)) => {
                    &&& found_complaint(found, uid, *selection) is None
                    &&& found.lock is Some
                    &&& found.status matches Ok(status)
                    &&& is_observed(status, found.free, seen)
                },
            },
        },
{
    let found = match found {
        None => {
            return Ok(None);
        },
        Some(found) => found,
    };
    check_directory(&found.directory, uid)?;
    match &found.lock {
        None => {
            return Ok(None);
        },
        Some(m) => {
            check_file(m, uid)?;
        },
    }
    check_file(&found.file, uid)?;
    check_read(found.size)?;
    let status = found.status?;
    status.validate(selection)?;
    Ok(Some(status.observe(found.free)))
}

/// Where the record of an import stands.
#[derive(Clone, Copy, Debug, PartialEq, Eq, Structural)]
pub enum JobStep {
    CheckDirectory,
    CheckLock,
    TakeLock,
    MeasureActive,
    WriteActive,
    Running,
    MeasureOutcome,
    WriteOutcome,
    Finished,
    Failed,
}

pub open spec fn job_rank(step: JobStep) -> int {
    match step {
        JobStep::CheckDirectory => 0,
        JobStep::CheckLock => 1,
        JobStep::TakeLock => 2,
        JobStep::MeasureActive => 3,
        JobStep::WriteActive => 4,
        JobStep::Running => 5,
        JobStep::MeasureOutcome => 6,
        JobStep::WriteOutcome => 7,
        JobStep::Finished => 8,
        JobStep::Failed => 9,
    }
}

/// The record of an import, which its worker keeps under a lock from the beginning to the end.
pub struct Job {
    pub id: String,
    /// What the record says, once it is written.
    pub status: Status,
    pub step: JobStep,
    pub error: String,
    /// The steps that succeeded, in order.
    pub log: Ghost<Seq<JobStep>>,
}

pub open spec fn job_stops(before: Job, after: Job, text: Seq<char>) -> bool {
    after == (Job { step: JobStep::Failed, error: after.error, ..before }) && after.error@ == text
}

pub open spec fn job_moves(before: Job, after: Job, next: JobStep) -> bool {
    after == (Job { step: next, log: Ghost(before.log@.push(before.step)), ..before })
}

impl Job {
    /// Every step before the present one succeeded.
    pub open spec fn wf(self) -> bool {
        self.step != JobStep::Failed ==> forall|s: JobStep|
            job_rank(s) < job_rank(self.step) ==> #[trigger] self.log@.contains(s)
    }

    fn advance(&mut self, next: JobStep)
        requires
            (Job {
                step: next,
                log: Ghost(old(self).log@.push(old(self).step)),
                ..*old(self)
            }).wf(),
        ensures
            final(self).wf(),
            job_moves(*old(self), *final(self), next),
    {
        self.log = Ghost(self.log@.push(self.step));
        self.step = next;
    }

    /// A step could not be done.
    pub fn failed(&mut self, reason: &str)
        ensures
            final(self).wf(),
            job_stops(*old(self), *final(self), reason@),
    {
        self.step = JobStep::Failed;
        self.error = reason.to_owned();
    }

    pub fn begin(id: &str) -> (r: Result<Job, String>)
        ensures
            match r {
                Ok(job) => {
                    &&& valid_id(id@)
                    &&& job.wf()
                    &&& job.id@ == id@
                    &&& job.status.wf()
                    &&& job.status.id@ == id@
                    &&& job.status.active
                    &&& job.step == JobStep::CheckDirectory
                    &&& job.log@ == Seq::<JobStep>::empty()
                },
                Err(e) => !valid_id(id@) && e@ == "Invalid import job identity"@,
            },
    {
        let status = Status::begin(id)?;
        Ok(
            Job {
                id: id.to_owned(),
                status,
                step: JobStep::CheckDirectory,
                error: String::new(),
                log: Ghost(Seq::empty()),
            },
        )
    }

    /// The directory of the record exists and was opened.
    pub fn directory(&mut self, m: &Metadata, uid: u32)
        requires
            old(self).wf(),
            old(self).step == JobStep::CheckDirectory,
        ensures
            final(self).wf(),
            match job_directory_complaint(*m, uid) {
                Some(e) => job_stops(*old(self), *final(self), e),
                None => job_moves(*old(self), *final(self), JobStep::CheckLock),
            },
    {
        match check_directory(m, uid) {
            Err(e) => {
                self.failed(e.as_str());
            },
            Ok(_) => {
                proof {
                    steps::push_holds(self.log@, self.step);
                }
                self.advance(JobStep::CheckLock);
            },
        }
    }

    /// The worker's lock was opened.
    pub fn lock(&mut self, m: &Metadata, uid: u32)
        requires
            old(self).wf(),
            old(self).step == JobStep::CheckLock,
        ensures
            final(self).wf(),
            match if is_job_file(*m, uid) {
                None::<Seq<char>>
            } else {
                Some("Import job file has unsafe ownership, type, links or size"@)
            } {
                Some(e) => job_stops(*old(self), *final(self), e),
                None => job_moves(*old(self), *final(self), JobStep::TakeLock),
            },
    {
        match check_file(m, uid) {
            Err(e) => {
                self.failed(e.as_str());
            },
            Ok(_) => {
                proof {
                    steps::push_holds(self.log@, self.step);
                }
                self.advance(JobStep::TakeLock);
            },
        }
    }

    /// The lock was tried for.
    pub fn locked(&mut self, locked: bool)
        requires
            old(self).wf(),
            old(self).step == JobStep::TakeLock,
        ensures
            final(self).wf(),
            match if locked {
                None::<Seq<char>>
            } else {
                Some("A managed import worker is already active"@)
            } {
                Some(e) => job_stops(*old(self), *final(self), e),
                None => job_moves(*old(self), *final(self), JobStep::MeasureActive),
            },
    {
        match check_alone(locked) {
            Err(e) => {
                self.failed(e.as_str());
            },
            Ok(_) => {
                proof {
                    steps::push_holds(self.log@, self.step);
                }
                self.advance(JobStep::MeasureActive);
            },
        }
    }

    /// How many bytes the record takes, before it is written.
    pub fn measured(&mut self, size: u64)
        requires
            old(self).wf(),
            old(self).step == JobStep::MeasureActive || old(self).step == JobStep::MeasureOutcome,
        ensures
            final(self).wf(),
            if size <= LIMIT {
                job_moves(
                    *old(self),
                    *final(self),
                    if old(self).step == JobStep::MeasureActive {
                        JobStep::WriteActive
                    } else {
                        JobStep::WriteOutcome
                    },
                )
            } else {
                job_stops(*old(self), *final(self), "Import job result exceeds 17 MiB"@)
            },
    {
        match check_written(size) {
            Err(e) => {
                self.failed(e.as_str());
            },
            Ok(_) => {
                proof {
                    steps::push_holds(self.log@, self.step);
                }
                if let JobStep::MeasureActive = self.step {
                    self.advance(JobStep::WriteActive);
                } else {
                    self.advance(JobStep::WriteOutcome);
                }
            },
        }
    }

    /// The record was written and made durable.
    pub fn written(&mut self)
        requires
            old(self).wf(),
            old(self).step == JobStep::WriteActive || old(self).step == JobStep::WriteOutcome,
        ensures
            final(self).wf(),
            job_moves(
                *old(self),
                *final(self),
                if old(self).step == JobStep::WriteActive {
                    JobStep::Running
                } else {
                    JobStep::Finished
                },
            ),
    {
        proof {
            steps::push_holds(self.log@, self.step);
        }
        if let JobStep::WriteActive = self.step {
            self.advance(JobStep::Running);
        } else {
            self.advance(JobStep::Finished);
        }
    }

    /// The import ended.
    pub fn ended(&mut self, result: Result<PublishedSelection, String>)
        requires
            old(self).wf(),
            old(self).step == JobStep::Running,
        ensures
            final(self).wf(),
            *final(self) == (Job {
                status: final(self).status,
                step: JobStep::MeasureOutcome,
                log: Ghost(old(self).log@.push(old(self).step)),
                ..*old(self)
            }),
            is_finished(old(self).id@, result, final(self).status),
    {
        self.status = Status::finish(self.id.as_str(), result);
        proof {
            steps::push_holds(self.log@, self.step);
        }
        self.advance(JobStep::MeasureOutcome);
    }
}

/// A record is written only by the worker that has the lock, and only after it was found small enough.
pub proof fn records_are_written_under_the_lock(m: Job)
    requires
        m.wf(),
        job_rank(JobStep::WriteActive) <= job_rank(m.step) <= job_rank(JobStep::Finished),
    ensures
        m.log@.contains(JobStep::TakeLock),
        m.log@.contains(JobStep::MeasureActive),
        job_rank(m.step) > job_rank(JobStep::WriteActive) ==> m.log@.contains(JobStep::WriteActive),
        job_rank(m.step) >= job_rank(JobStep::WriteOutcome) ==> m.log@.contains(
            JobStep::MeasureOutcome,
        ),
{
}

/// The directory of a record is accepted exactly where it belongs to the account and nobody else may
/// use it. Its files are exactly where they are regular files of the account for nobody else, known
/// by one name and within their size.
pub proof fn records_are_kept_in_private(m: Metadata, uid: u32)
    ensures
        job_directory_complaint(m, uid) is None <==> m.uid == uid && m.mode & 0o022 == 0 && m.mode
            & 0o077 == 0,
        is_job_file(m, uid) <==> m.kind == FileKind::File && m.uid == uid && m.mode & 0o077 == 0
            && m.nlink == 1 && m.len <= 17_825_792,
{
}

/// A finished import has its result exactly where that is of this import, and otherwise an error: that
/// of the import, or that the result is another's. It is never active.
pub proof fn finished_imports_have_their_own_result(
    id: Seq<char>,
    result: Result<PublishedSelection, String>,
    status: Status,
)
    requires
        is_finished(id, result, status),
    ensures
        !status.active,
        status.id@ == id,
        status.result is Some <==> result is Ok && result->Ok_0.import_id@ == id,
        status.result is Some ==> status.result == Some(result->Ok_0) && status.error is None,
        status.result is None ==> status.error is Some,
        result is Err ==> status.error->0@ == text::cut(result->Err_0@, 2048),
{
}

/// An observer sees a record as it is exactly where its worker ended, as active while the worker holds
/// its lock, and as failed where it claims to be active and no worker is there.
pub proof fn observers_believe_the_lock(status: Status, free: bool, seen: Status)
    requires
        status.wf(),
        is_observed(status, free, seen),
    ensures
        seen.id == status.id,
        seen.active <==> !free,
        free && !status.active ==> seen == status,
        seen.result is Some ==> free && !status.active && seen.result == status.result,
        free && status.active ==> seen.error is Some && seen.result is None,
{
}

/// A record is read exactly where its directory and its lock are private, and, where there is a lock,
/// the record is a private file within its size and holds a valid status with a valid result.
pub proof fn valid_records_are_read(found: Found, uid: u32, selection: Result<(), String>)
    ensures
        found_complaint(found, uid, selection) is None <==> {
            &&& job_directory_complaint(found.directory, uid) is None
            &&& found.lock is Some ==> {
                &&& is_job_file(found.lock->0, uid)
                &&& is_job_file(found.file, uid)
                &&& found.size <= 17_825_792
                &&& found.status is Ok
                &&& found.status->Ok_0.wf()
                &&& found.status->Ok_0.result is Some ==> selection is Ok
            }
        },
{
}

} // verus!
