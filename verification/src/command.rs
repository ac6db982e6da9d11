//! Running a helper process under limits: what each round reads, when the run ends, and what it
//! may never exceed.

use crate::json;
use crate::json::text_of;
use crate::text;
use vstd::prelude::*;
use vstd::utf8::{decode_utf8, valid_utf8};

verus! {

/// The limit on an output stream unless a run asks for another, in bytes.
pub const MAX_OUTPUT: usize = 65_536;

/// The largest limit that a run may ask for, in bytes.
pub const LARGEST_OUTPUT: usize = 16_777_216;

/// How many reads of one stream a round makes at most.
pub const READS_PER_ROUND: u8 = 16;

/// How long a round waits for output at most, in milliseconds.
pub const WAIT_MS: u64 = 25;

/// What a finished helper left behind.
#[derive(Clone, Debug)]
pub struct Output {
    /// The exit code, unless a signal ended the process.
    pub code: Option<i32>,
    /// How the process ended, in words.
    pub status: String,
    pub stdout: String,
    pub stderr: String,
}

/// What speaks against the output of a program: its failure is reported after the words given.
pub open spec fn output_complaint(output: Output, words: Seq<char>) -> Option<Seq<char>> {
    if output.code == Some(0i32) {
        None
    } else {
        Some(words + text::trimmed(output.stderr@))
    }
}

impl Output {
    pub fn success(&self) -> (r: bool)
        ensures
            r == (self.code == Some(0i32)),
    {
        match self.code {
            Some(code) => code == 0,
            None => false,
        }
    }
}

/// What one read of a stream gave.
pub enum Read {
    /// The stream ended.
    End,
    /// These bytes came.
    Bytes(Vec<u8>),
    /// Nothing is there yet.
    WouldBlock,
    /// A signal interrupted the read.
    Interrupted,
    Failed(String),
}

/// An output stream as far as it was read.
pub struct Stream {
    pub bytes: Vec<u8>,
    pub limit: usize,
    /// The reads that remain in this round.
    pub left: u8,
    /// Whether the last round reached the end of the stream.
    pub ended: bool,
}

pub open spec fn over_limit(limit: usize) -> Seq<char> {
    "Helper output exceeded "@ + text::decimal((limit / 1024) as nat) + " KiB"@
}

/// How a read changes a stream: the stream after it and whether the round goes on, or the error.
pub open spec fn after_read(stream: Stream, read: Read) -> Result<
    (Seq<u8>, bool, bool),
    Seq<char>,
> {
    match read {
        Read::End => Ok((stream.bytes@, true, false)),
        Read::Bytes(bytes) => if stream.bytes@.len() + bytes@.len() > stream.limit {
            Err(over_limit(stream.limit))
        } else {
            Ok((stream.bytes@ + bytes@, false, stream.left > 1))
        },
        Read::WouldBlock => Ok((stream.bytes@, false, false)),
        Read::Interrupted => Ok((stream.bytes@, false, stream.left > 1)),
        Read::Failed(error) => Err("Reading diagnostic output: "@ + error@),
    }
}

impl Stream {
    /// No more was kept than the limit allows.
    pub open spec fn wf(self) -> bool {
        self.bytes@.len() <= self.limit <= LARGEST_OUTPUT
    }

    /// Takes in one read. The result says whether the round reads on.
    pub fn drain(&mut self, read: Read) -> (r: Result<bool, String>)
        requires
            old(self).wf(),
            old(self).left > 0,
        ensures
            final(self).wf(),
            final(self).limit == old(self).limit,
            match (r, after_read(*old(self), read)) {
                (Ok(again), Ok((bytes, ended, more))) => {
                    &&& again == more
                    &&& final(self).bytes@ == bytes
                    &&& final(self).ended == ended
                    &&& final(self).left == old(self).left - 1
                },
                (Err(e), Err(text)) => e@ == text && *final(self) == *old(self),
                _ => false,
            },
    {
        match read {
            Read::End => {
                self.left = self.left - 1;
                self.ended = true;
                Ok(false)
            },
            Read::Bytes(bytes) => {
                if bytes.len() > self.limit - self.bytes.len() {
                    let mut e = "Helper output exceeded ".to_owned();
                    e.append(text::format_u64((self.limit / 1024) as u64).as_str());
                    e.append(" KiB");
                    return Err(e);
                }
                let mut bytes = bytes;
                self.bytes.append(&mut bytes);
                self.left = self.left - 1;
                self.ended = false;
                Ok(self.left > 0)
            },
            Read::WouldBlock => {
                self.left = self.left - 1;
                self.ended = false;
                Ok(false)
            },
            Read::Interrupted => {
                self.left = self.left - 1;
                self.ended = false;
                Ok(self.left > 0)
            },
            Read::Failed(error) => {
                let mut e = "Reading diagnostic output: ".to_owned();
                e.append(error.as_str());
                Err(e)
            },
        }
    }
}

#[derive(Clone, Copy, Debug, PartialEq, Eq, Structural)]
pub enum RunStep {
    /// See whether the run was cancelled, and what time it is.
    CheckTime,
    ReadOutput,
    ReadErrors,
    /// See whether the process exited.
    CheckExit,
    /// End the process group and collect the exit code.
    Finish,
    /// Wait for more output, but no longer than `wait_ms`.
    Wait,
    Complete,
    Failed,
}

/// The run of a helper process.
pub struct Run {
    pub timeout_ms: u64,
    pub step: RunStep,
    pub output: Stream,
    pub errors: Stream,
    /// Whether the process was collected, and its exit code.
    pub collected: bool,
    pub code: Option<i32>,
    pub error: String,
}

pub open spec fn run_stops(before: Run, after: Run, text: Seq<char>) -> bool {
    after == (Run { step: RunStep::Failed, error: after.error, ..before }) && after.error@ == text
}

/// Where a round goes once the exit code is known or known to be missing.
pub open spec fn settled(run: Run) -> RunStep {
    if run.collected && run.output.ended && run.errors.ended {
        RunStep::Complete
    } else {
        RunStep::Wait
    }
}

impl Run {
    /// No stream outgrew its limit, and a complete run has collected its process after both
    /// streams ended.
    pub open spec fn wf(self) -> bool {
        &&& self.output.wf()
        &&& self.errors.wf()
        &&& self.errors.limit == MAX_OUTPUT
        &&& self.step == RunStep::ReadOutput ==> self.output.left > 0 && self.errors.left > 0
        &&& self.step == RunStep::ReadErrors ==> self.errors.left > 0
        &&& (self.step == RunStep::CheckExit || self.step == RunStep::Finish) ==> !self.collected
        &&& self.step == RunStep::Complete ==> self.collected && self.output.ended
            && self.errors.ended
    }

    /// Begins a run that may take so many milliseconds and keep so many bytes of standard output.
    pub fn begin(timeout_ms: u64, stdout_limit: usize) -> (r: Result<Run, String>)
        ensures
            match r {
                Ok(run) => {
                    &&& 1 <= stdout_limit <= LARGEST_OUTPUT
                    &&& run.wf()
                    &&& run.timeout_ms == timeout_ms
                    &&& run.step == RunStep::CheckTime
                    &&& run.output.limit == stdout_limit
                    &&& run.output.bytes@ == Seq::<u8>::empty()
                    &&& run.errors.bytes@ == Seq::<u8>::empty()
                    &&& !run.collected
                    &&& run.code is None
                },
                Err(e) => {
                    &&& !(1 <= stdout_limit <= LARGEST_OUTPUT)
                    &&& e@ == "Helper stdout limit must be between 1 byte and 16 MiB"@
                },
            },
    {
        if stdout_limit < 1 || stdout_limit > LARGEST_OUTPUT {
            return Err("Helper stdout limit must be between 1 byte and 16 MiB".to_owned());
        }
        Ok(
            Run {
                timeout_ms,
                step: RunStep::CheckTime,
                output: Stream { bytes: Vec::new(), limit: stdout_limit, left: 0, ended: false },
                errors: Stream { bytes: Vec::new(), limit: MAX_OUTPUT, left: 0, ended: false },
                collected: false,
                code: None,
                error: String::new(),
            },
        )
    }

    /// A step could not be taken, for the reason given.
    pub fn failed(&mut self, reason: &str)
        requires
            old(self).wf(),
        ensures
            final(self).wf(),
            run_stops(*old(self), *final(self), reason@),
    {
        self.step = RunStep::Failed;
        self.error = reason.to_owned();
    }

    /// Begins a round: whether the run was cancelled, and the milliseconds since it began.
    pub fn tick(&mut self, cancelled: bool, elapsed_ms: u64)
        requires
            old(self).wf(),
            old(self).step == RunStep::CheckTime,
        ensures
            final(self).wf(),
            cancelled ==> run_stops(*old(self), *final(self), "Diagnostic command cancelled"@),
            !cancelled && elapsed_ms >= old(self).timeout_ms ==> run_stops(
                *old(self),
                *final(self),
                "Diagnostic command timed out"@,
            ),
            !cancelled && elapsed_ms < old(self).timeout_ms ==> *final(self) == (Run {
                step: RunStep::ReadOutput,
                output: Stream { left: READS_PER_ROUND, ..old(self).output },
                errors: Stream { left: READS_PER_ROUND, ..old(self).errors },
                ..*old(self)
            }),
    {
        if cancelled {
            self.failed("Diagnostic command cancelled");
        } else if elapsed_ms >= self.timeout_ms {
            self.failed("Diagnostic command timed out");
        } else {
            self.step = RunStep::ReadOutput;
            self.output.left = READS_PER_ROUND;
            self.errors.left = READS_PER_ROUND;
        }
    }

    /// One read of standard output.
    pub fn read_output(&mut self, read: Read)
        requires
            old(self).wf(),
            old(self).step == RunStep::ReadOutput,
        ensures
            final(self).wf(),
            match after_read(old(self).output, read) {
                Ok((bytes, ended, more)) => {
                    &&& final(self).output.bytes@ == bytes
                    &&& final(self).output.ended == ended
                    &&& final(self).output.limit == old(self).output.limit
                    &&& final(self).output.left == old(self).output.left - 1
                    &&& *final(self) == (Run {
                        output: final(self).output,
                        step: if more {
                            RunStep::ReadOutput
                        } else {
                            RunStep::ReadErrors
                        },
                        ..*old(self)
                    })
                },
                Err(text) => run_stops(*old(self), *final(self), text),
            },
    {
        match self.output.drain(read) {
            Ok(more) => {
                if !more {
                    self.step = RunStep::ReadErrors;
                }
            },
            Err(e) => {
                self.failed(e.as_str());
            },
        }
    }

    /// One read of standard error.
    pub fn read_errors(&mut self, read: Read)
        requires
            old(self).wf(),
            old(self).step == RunStep::ReadErrors,
        ensures
            final(self).wf(),
            match after_read(old(self).errors, read) {
                Ok((bytes, ended, more)) => {
                    &&& final(self).errors.bytes@ == bytes
                    &&& final(self).errors.ended == ended
                    &&& final(self).errors.limit == old(self).errors.limit
                    &&& final(self).errors.left == old(self).errors.left - 1
                    &&& *final(self) == (Run {
                        errors: final(self).errors,
                        step: if more {
                            RunStep::ReadErrors
                        } else if old(self).collected {
                            settled(*final(self))
                        } else {
                            RunStep::CheckExit
                        },
                        ..*old(self)
                    })
                },
                Err(text) => run_stops(*old(self), *final(self), text),
            },
    {
        match self.errors.drain(read) {
            Ok(more) => {
                if !more {
                    if self.collected {
                        self.settle();
                    } else {
                        self.step = RunStep::CheckExit;
                    }
                }
            },
            Err(e) => {
                self.failed(e.as_str());
            },
        }
    }

    fn settle(&mut self)
        requires
            old(self).output.wf(),
            old(self).errors.wf(),
            old(self).errors.limit == MAX_OUTPUT,
        ensures
            final(self).wf(),
            *final(self) == (Run { step: settled(*old(self)), ..*old(self) }),
    {
        if self.collected && self.output.ended && self.errors.ended {
            self.step = RunStep::Complete;
        } else {
            self.step = RunStep::Wait;
        }
    }

    /// Whether the process exited.
    pub fn exited(&mut self, exited: bool)
        requires
            old(self).wf(),
            old(self).step == RunStep::CheckExit,
        ensures
            final(self).wf(),
            *final(self) == (Run {
                step: if exited {
                    RunStep::Finish
                } else {
                    RunStep::Wait
                },
                ..*old(self)
            }),
    {
        if exited {
            self.step = RunStep::Finish;
        } else {
            self.step = RunStep::Wait;
        }
    }

    /// The process group was ended and the process collected.
    pub fn finished(&mut self, code: Option<i32>)
        requires
            old(self).wf(),
            old(self).step == RunStep::Finish,
        ensures
            final(self).wf(),
            *final(self) == (Run {
                collected: true,
                code,
                step: settled(Run { collected: true, ..*old(self) }),
                ..*old(self)
            }),
    {
        self.collected = true;
        self.code = code;
        self.settle();
    }

    /// How long the next wait may last, in milliseconds, so many nanoseconds after the run began:
    /// the whole milliseconds that remain, up to a bound.
    pub fn wait_ms(&self, elapsed_ns: u128) -> (r: u64)
        ensures
            ({
                let left = self.timeout_ms * 1_000_000 - elapsed_ns;
                r == if left <= 0 {
                    0
                } else if left / 1_000_000 < WAIT_MS {
                    left / 1_000_000
                } else {
                    WAIT_MS as int
                }
            }),
    {
        let whole: u128 = self.timeout_ms as u128 * 1_000_000;
        if elapsed_ns >= whole {
            return 0;
        }
        let left: u128 = (whole - elapsed_ns) / 1_000_000;
        if left < WAIT_MS as u128 {
            left as u64
        } else {
            WAIT_MS
        }
    }

    /// The wait is over.
    pub fn waited(&mut self)
        requires
            old(self).wf(),
            old(self).step == RunStep::Wait,
        ensures
            final(self).wf(),
            *final(self) == (Run { step: RunStep::CheckTime, ..*old(self) }),
    {
        self.step = RunStep::CheckTime;
    }
}

/// What a complete run kept never exceeds the limits that it was begun with.
pub proof fn output_is_bounded(run: Run)
    requires
        run.wf(),
    ensures
        run.output.bytes@.len() <= run.output.limit <= LARGEST_OUTPUT,
        run.errors.bytes@.len() <= MAX_OUTPUT,
{
}

/// A run completes only when its process was collected and both streams were read to their end.
pub proof fn completion_is_total(run: Run)
    requires
        run.wf(),
        run.step == RunStep::Complete,
    ensures
        run.collected,
        run.output.ended,
        run.errors.ended,
{
}

/// What `String::from_utf8_lossy` makes of bytes.
pub uninterp spec fn lossy(bytes: Seq<u8>) -> Seq<char>;

/// `String::from_utf8_lossy`: the text that the bytes encode, with replacement characters where they
/// are not valid UTF-8. Bytes that are valid UTF-8 are read as they stand.
#[verifier::external_body]
fn from_utf8_lossy(bytes: &Vec<u8>) -> (r: String)
    ensures
        r@ == lossy(bytes@),
        valid_utf8(bytes@) ==> r@ == decode_utf8(bytes@),
{
    String::from_utf8_lossy(bytes).into_owned()
}

impl Run {
    /// What the run left behind: its standard output where that is valid UTF-8, and its errors
    /// whatever they are. How the process ended is given in words.
    pub fn output(&self, status: String) -> (r: Result<Output, String>)
        requires
            self.wf(),
            self.step == RunStep::Complete,
        ensures
            match r {
                Ok(output) => {
                    &&& output.code == self.code
                    &&& output.status == status
                    &&& text_of(self.output.bytes@) == Ok::<Seq<char>, Seq<char>>(output.stdout@)
                    &&& output.stderr@ == lossy(self.errors.bytes@)
                },
                Err(e) => text_of(self.output.bytes@) matches Err(cause) && e@
                    == "Invalid diagnostic output encoding: "@ + cause,
            },
    {
        match json::decode(self.output.bytes.clone()) {
            Ok(stdout) => Ok(
                Output { code: self.code, status, stdout, stderr: from_utf8_lossy(&self.errors.bytes) },
            ),
            Err(cause) => {
                let mut whole = "Invalid diagnostic output encoding: ".to_owned();
                whole.append(cause.as_str());
                Err(whole)
            },
        }
    }
}

/// A helper that came to its end: its run, and how its process ended, in words.
pub struct Ran {
    pub run: Run,
    pub status: String,
}

/// Whether a helper, where it could be run at all, came to its end under these limits.
pub open spec fn ran_within(ran: Result<Ran, String>, timeout_ms: u64, stdout_limit: usize) -> bool {
    ran matches Ok(ran) ==> {
        &&& ran.run.wf()
        &&& ran.run.timeout_ms == timeout_ms
        &&& ran.run.output.limit == stdout_limit
        &&& ran.run.step == RunStep::Complete || ran.run.step == RunStep::Failed
    }
}

/// What a helper left behind: its exit code, its output and its errors.
pub open spec fn left_by(ran: Result<Ran, String>) -> Result<
    (Option<i32>, Seq<char>, Seq<char>),
    Seq<char>,
> {
    match ran {
        Err(e) => Err(e@),
        Ok(ran) => if ran.run.step == RunStep::Failed {
            Err(ran.run.error@)
        } else {
            match text_of(ran.run.output.bytes@) {
                Ok(stdout) => Ok((ran.run.code, stdout, lossy(ran.run.errors.bytes@))),
                Err(cause) => Err("Invalid diagnostic output encoding: "@ + cause),
            }
        },
    }
}

/// What an output says, as values.
pub open spec fn said(output: Result<Output, String>) -> Result<
    (Option<i32>, Seq<char>, Seq<char>),
    Seq<char>,
> {
    match output {
        Ok(o) => Ok((o.code, o.stdout@, o.stderr@)),
        Err(e) => Err(e@),
    }
}

/// The output of a helper that came to its end, or why there is none.
pub fn ended(ran: &Result<Ran, String>) -> (r: Result<Output, String>)
    requires
        ran matches Ok(ran) ==> ran.run.wf() && (ran.run.step == RunStep::Complete || ran.run.step
            == RunStep::Failed),
    ensures
        said(r) == left_by(*ran),
{
    match ran {
        Err(e) => Err(e.clone()),
        Ok(ran) => if let RunStep::Failed = ran.run.step {
            Err(ran.run.error.clone())
        } else {
            ran.run.output(ran.status.clone())
        },
    }
}

/// A program counts as successful exactly where it exited by itself with zero. Its errors are reported
/// otherwise, behind the words given.
pub proof fn programs_succeed_with_zero(output: Output, words: Seq<char>)
    ensures
        output_complaint(output, words) is None <==> output.code == Some(0i32),
        output_complaint(output, words) matches Some(e) ==> e == words + text::trimmed(output.stderr@),
{
}

/// What comes over a stream is kept, all of it and in its order, until it ends or outgrows its limit.
/// Only the end of the stream ends it.
pub proof fn streams_keep_what_comes(stream: Stream, read: Read)
    ensures
        ({
            let after = after_read(stream, read);
            &&& after is Ok ==> (after->Ok_0.1 <==> read is End)
            &&& after is Ok ==> after->Ok_0.0 == (match read {
                Read::Bytes(bytes) => stream.bytes@ + bytes@,
                _ => stream.bytes@,
            })
            &&& after is Err <==> read is Failed || (read matches Read::Bytes(bytes)
                && stream.bytes@.len() + bytes@.len() > stream.limit)
            &&& after is Ok && after->Ok_0.2 ==> (read is Bytes || read is Interrupted)
                && stream.left > 1
        }),
{
}

/// A run is complete exactly where its process was collected and both of its streams ended.
pub proof fn runs_complete_with_all_their_output(run: Run)
    ensures
        settled(run) == RunStep::Complete <==> run.collected && run.output.ended && run.errors.ended,
        settled(run) == RunStep::Wait <==> !(run.collected && run.output.ended && run.errors.ended),
{
}

/// What a program left is told exactly where it could be run, ended in time and within its limits, and
/// printed text.
pub proof fn outputs_are_those_of_complete_runs(ran: Result<Ran, String>)
    ensures
        left_by(ran) is Ok <==> ran is Ok && ran->Ok_0.run.step != RunStep::Failed && text_of(
            ran->Ok_0.run.output.bytes@,
        ) is Ok,
        left_by(ran) is Ok ==> left_by(ran)->Ok_0 == (
            ran->Ok_0.run.code,
            text_of(ran->Ok_0.run.output.bytes@)->Ok_0,
            lossy(ran->Ok_0.run.errors.bytes@),
        ),
{
}

} // verus!
