//! External programs: what a run of one comes to, and how a failure is
//! reported.

use vstd::prelude::*;

use crate::path;
use crate::path::{lossy_text, FilePath};
use crate::text;
use crate::text::{cat, cat3, cat5, i32_text, join_texts, lines_of, u64_text};

verus! {

/// How many lines of error output go into a message.
pub const TAIL_LINES: usize = 5;

/// How many bytes of output go into the log.
pub const LOG_TAIL_BYTES: usize = 2000;

/// What a program has written, and whether it succeeded.
#[derive(Debug)]
pub struct Output {
    pub stdout: Vec<u8>,
    pub stderr: Vec<u8>,
    pub success: bool,
}

/// Why a run came to nothing.
#[derive(Debug)]
pub enum RunError {
    /// There is no such program.
    NotFound,
    /// It took longer than so many seconds.
    Timeout(u64),
    /// It was cancelled.
    Cancelled,
    /// It exited with a status other than zero.
    Failed(i32),
    /// It could not be started, or its output could not be read.
    Io(String),
}

/// A failure, with text as a sequence of characters.
#[verifier::ext_equal]
pub enum RunErrorView {
    NotFound,
    Timeout(u64),
    Cancelled,
    Failed(i32),
    Io(Seq<char>),
}

impl View for RunError {
    type V = RunErrorView;

    open spec fn view(&self) -> RunErrorView {
        match *self {
            RunError::NotFound => RunErrorView::NotFound,
            RunError::Timeout(s) => RunErrorView::Timeout(s),
            RunError::Cancelled => RunErrorView::Cancelled,
            RunError::Failed(rc) => RunErrorView::Failed(rc),
            RunError::Io(e) => RunErrorView::Io(e@),
        }
    }
}

/// The last `n` lines of a text, with line breaks between them.
pub open spec fn last_lines(s: Seq<char>, n: nat) -> Seq<char> {
    let all = text::lines(s);
    text::join(
        all.skip(
            if all.len() > n {
                all.len() - n
            } else {
                0
            },
        ),
        "\n"@,
    )
}

/// What is reported of a failure.
pub open spec fn run_error_text(e: RunErrorView) -> Seq<char> {
    match e {
        RunErrorView::NotFound => "not found"@,
        RunErrorView::Timeout(s) => "timed out after "@ + text::dec(s as nat) + "s"@,
        RunErrorView::Cancelled => "cancelled"@,
        RunErrorView::Failed(rc) => "exit status "@ + text::dec_int(rc as int),
        RunErrorView::Io(e) => "io error: "@ + e,
    }
}

/// What is reported of a failure of the program `cmd`.
pub open spec fn friendly(cmd: Seq<char>, e: RunErrorView) -> Seq<char> {
    match e {
        RunErrorView::NotFound => "Required command not found: "@ + cmd,
        RunErrorView::Timeout(s) => "Command timed out after "@ + text::dec(s as nat) + "s: "@
            + cmd,
        RunErrorView::Cancelled => "cancelled"@,
        RunErrorView::Failed(rc) => cmd + " failed (rc="@ + text::dec_int(rc as int) + ")"@,
        RunErrorView::Io(e) => cmd + " failed: "@ + e,
    }
}

/// Where a message says that more can be found.
pub open spec fn log_note(logfile: Seq<u8>) -> Seq<char> {
    "\nFull log: "@ + path::lossy(logfile)
}

/// What is reported of a step whose program failed.
pub open spec fn step_failure(context: Seq<char>, stderr: Seq<u8>, logfile: Seq<u8>) -> Seq<char> {
    let tail = last_lines(path::lossy(stderr), TAIL_LINES as nat);
    context + " failed"@ + (if tail.len() == 0 {
        ""@
    } else {
        ":\n"@ + tail
    }) + log_note(logfile)
}

/// What is reported of a step whose program did not get to run to its end.
pub open spec fn step_error(
    context: Seq<char>,
    cmd: Seq<char>,
    e: RunErrorView,
    logfile: Seq<u8>,
) -> Seq<char> {
    (match e {
        RunErrorView::NotFound => context + " failed: Required command not found: "@ + cmd,
        RunErrorView::Timeout(s) => context + " failed: "@ + cmd + " timed out after "@
            + text::dec(s as nat) + "s"@,
        RunErrorView::Cancelled => context + " cancelled"@,
        RunErrorView::Failed(rc) => context + " failed (rc="@ + text::dec_int(rc as int) + ")"@,
        RunErrorView::Io(e) => context + " failed: io error: "@ + e,
    }) + log_note(logfile)
}

/// The last `n` lines of a text.
fn tail_text(s: &str, n: usize) -> (r: String)
    ensures
        r@ == last_lines(s@, n as nat),
{
    let all = lines_of(s);
    let start: usize = if all.len() > n {
        all.len() - n
    } else {
        0
    };
    let mut kept: Vec<String> = Vec::new();
    let mut i: usize = start;
    let ghost ts = text::texts(all@);
    assert(text::texts(kept@) =~= ts.subrange(start as int, start as int));
    while i < all.len()
        invariant
            start <= i <= all@.len(),
            ts == text::texts(all@),
            text::texts(kept@) == ts.subrange(start as int, i as int),
        decreases all@.len() - i,
    {
        let ghost before = kept@;
        kept.push(all[i].clone());
        assert(text::texts(kept@) =~= text::texts(before).push(ts[i as int]));
        assert(ts.subrange(start as int, i + 1) =~= ts.subrange(start as int, i as int).push(
            ts[i as int],
        ));
        i = i + 1;
    }
    assert(ts.subrange(start as int, ts.len() as int) =~= ts.skip(start as int));
    join_texts(kept.as_slice(), "\n")
}

impl Output {
    /// The last `n` lines of the error output.
    pub fn stderr_tail(&self, n: usize) -> (r: String)
        ensures
            r@ == last_lines(path::lossy(self.stderr@), n as nat),
    {
        let s = lossy_text(self.stderr.as_slice());
        tail_text(s.as_str(), n)
    }
}

impl RunError {
    /// What is reported of a failure.
    pub fn message(&self) -> (r: String)
        ensures
            r@ == run_error_text(self@),
    {
        match self {
            RunError::NotFound => "not found".to_owned(),
            RunError::Timeout(s) => cat3("timed out after ", u64_text(*s).as_str(), "s"),
            RunError::Cancelled => "cancelled".to_owned(),
            RunError::Failed(rc) => cat("exit status ", i32_text(*rc).as_str()),
            RunError::Io(e) => cat("io error: ", e.as_str()),
        }
    }
}

/// What is reported of a failure of the program `cmd`.
pub fn map_err(cmd: &str, e: &RunError) -> (r: String)
    ensures
        r@ == friendly(cmd@, e@),
{
    match e {
        RunError::NotFound => cat("Required command not found: ", cmd),
        RunError::Timeout(s) => cat(
            cat3("Command timed out after ", u64_text(*s).as_str(), "s: ").as_str(),
            cmd,
        ),
        RunError::Cancelled => "cancelled".to_owned(),
        RunError::Failed(rc) => cat(
            cat3(cmd, " failed (rc=", i32_text(*rc).as_str()).as_str(),
            ")",
        ),
        RunError::Io(err) => cat3(cmd, " failed: ", err.as_str()),
    }
}

/// The outcome of a run that has to succeed.
pub open spec fn required_ok(cmd: Seq<char>, r: Result<Output, RunError>) -> Result<
    Output,
    Seq<char>,
> {
    match r {
        Err(e) => Err(friendly(cmd, e@)),
        Ok(out) => if out.success {
            Ok(out)
        } else {
            Err(cmd + " failed: "@ + last_lines(path::lossy(out.stderr@), TAIL_LINES as nat))
        },
    }
}

/// The output of a run that has to succeed, or what to report.
pub fn run_ok(cmd: &str, result: Result<Output, RunError>) -> (r: Result<Output, String>)
    ensures
        match r {
            Ok(out) => required_ok(cmd@, result) == Ok::<Output, Seq<char>>(out),
            Err(e) => required_ok(cmd@, result) == Err::<Output, Seq<char>>(e@),
        },
{
    match result {
        Err(e) => Err(map_err(cmd, &e)),
        Ok(out) => if out.success {
            Ok(out)
        } else {
            let tail = out.stderr_tail(TAIL_LINES);
            Err(cat3(cmd, " failed: ", tail.as_str()))
        },
    }
}

/// What is reported of a step whose program failed.
pub fn fail_with_log(context: &str, output: &Output, logfile: &FilePath) -> (r: String)
    ensures
        r@ == step_failure(context@, output.stderr@, logfile@),
{
    let tail = output.stderr_tail(TAIL_LINES);
    let note = cat("\nFull log: ", logfile.display().as_str());
    if tail.as_str().is_empty() {
        let r = cat(cat3(context, " failed", "").as_str(), note.as_str());
        r
    } else {
        let more = cat(":\n", tail.as_str());
        cat(cat3(context, " failed", more.as_str()).as_str(), note.as_str())
    }
}

/// What is reported of a step whose program did not get to run to its end.
pub fn fail_with_log_err(context: &str, cmd: &str, e: &RunError, logfile: &FilePath) -> (r: String)
    ensures
        r@ == step_error(context@, cmd@, e@, logfile@),
{
    let head = match e {
        RunError::NotFound => cat3(context, " failed: Required command not found: ", cmd),
        RunError::Timeout(s) => cat(
            cat5(context, " failed: ", cmd, " timed out after ", u64_text(*s).as_str()).as_str(),
            "s",
        ),
        RunError::Cancelled => cat(context, " cancelled"),
        RunError::Failed(rc) => cat(
            cat3(context, " failed (rc=", i32_text(*rc).as_str()).as_str(),
            ")",
        ),
        RunError::Io(err) => cat3(context, " failed: io error: ", err.as_str()),
    };
    cat(head.as_str(), cat("\nFull log: ", logfile.display().as_str()).as_str())
}

/// The last bytes of an output.
pub open spec fn last_bytes(b: Seq<u8>, n: nat) -> Seq<u8> {
    b.skip(
        if b.len() > n {
            b.len() - n
        } else {
            0
        },
    )
}

/// The end of an output, for the log.
pub fn log_tail(bytes: &[u8]) -> (r: String)
    ensures
        r@ == path::lossy(last_bytes(bytes@, LOG_TAIL_BYTES as nat)),
{
    let n: usize = bytes.len();
    let start: usize = if n > LOG_TAIL_BYTES {
        n - LOG_TAIL_BYTES
    } else {
        0
    };
    let tail = crate::path::bytes_of(bytes, start, n);
    assert(tail@ =~= last_bytes(bytes@, LOG_TAIL_BYTES as nat));
    lossy_text(tail.as_slice())
}

// ----------------------------------------------------------------------- run

/// How the run of a program ended, as it was observed.
#[derive(Debug)]
pub enum RunEvent {
    /// The program does not exist.
    SpawnNotFound,
    /// The program could not be started.
    SpawnFailed(String),
    /// Its output could not be read.
    ReadFailed(String),
    /// The time for it was up, after so many seconds.
    TimedOut(u64),
    /// It was cancelled.
    Cancelled,
    /// It exited by itself; the status is missing where it was not to be had.
    Exited { stdout: Vec<u8>, stderr: Vec<u8>, status: Option<ExitStatus> },
}

/// How a program exited.
#[derive(Debug, Clone, Copy)]
pub struct ExitStatus {
    pub success: bool,
    /// Missing where the program was killed by a signal.
    pub code: Option<i32>,
}

/// Whether the program is still running when a run ends this way, and has to
/// be killed.
pub open spec fn must_kill(e: RunEvent) -> bool {
    e is ReadFailed || e is TimedOut || e is Cancelled
}

/// Whether the program is still running when a run ends this way.
pub fn kills_child(e: &RunEvent) -> (r: bool)
    ensures
        r == must_kill(*e),
{
    match e {
        RunEvent::ReadFailed(_) | RunEvent::TimedOut(_) | RunEvent::Cancelled => true,
        RunEvent::SpawnNotFound | RunEvent::SpawnFailed(_) | RunEvent::Exited { .. } => false,
    }
}

/// What a run came to.
pub open spec fn run_outcome(e: RunEvent, r: Result<Output, RunError>) -> bool {
    match (e, r) {
        (RunEvent::SpawnNotFound, Err(RunError::NotFound)) => true,
        (RunEvent::SpawnFailed(m), Err(RunError::Io(n))) => m@ == n@,
        (RunEvent::ReadFailed(m), Err(RunError::Io(n))) => m@ == n@,
        (RunEvent::TimedOut(s), Err(RunError::Timeout(t))) => s == t,
        (RunEvent::Cancelled, Err(RunError::Cancelled)) => true,
        (RunEvent::Exited { stdout, stderr, status }, Ok(out)) => {
            &&& out.stdout@ == stdout@
            &&& out.stderr@ == stderr@
            &&& out.success == (status is Some && status->0.success)
        },
        _ => false,
    }
}

/// What a run came to: a program that exited has an output, whatever its
/// status; everything else is a failure.
pub fn run_result(e: RunEvent) -> (r: Result<Output, RunError>)
    ensures
        run_outcome(e, r),
{
    match e {
        RunEvent::SpawnNotFound => Err(RunError::NotFound),
        RunEvent::SpawnFailed(m) => Err(RunError::Io(m)),
        RunEvent::ReadFailed(m) => Err(RunError::Io(m)),
        RunEvent::TimedOut(s) => Err(RunError::Timeout(s)),
        RunEvent::Cancelled => Err(RunError::Cancelled),
        RunEvent::Exited { stdout, stderr, status } => {
            let success = match status {
                Some(s) => s.success,
                None => false,
            };
            Ok(Output { stdout, stderr, success })
        },
    }
}

/// The exit code for the log: -1 where there is none.
pub fn exit_code(status: Option<ExitStatus>) -> (r: i32)
    ensures
        r == (match status {
            Some(s) => match s.code {
                Some(c) => c,
                None => -1i32,
            },
            None => -1i32,
        }),
{
    match status {
        Some(s) => match s.code {
            Some(c) => c,
            None => -1,
        },
        None => -1,
    }
}

/// The two reports agree that a cancelled run is no failure of the program.
pub proof fn law_cancelled_is_plain(cmd: Seq<char>)
    ensures
        friendly(cmd, RunErrorView::Cancelled) == run_error_text(RunErrorView::Cancelled),
{
}

/// A text with no more lines than asked for is kept whole.
pub proof fn law_tail_of_short_text(s: Seq<char>, n: nat)
    requires
        text::lines(s).len() <= n,
    ensures
        last_lines(s, n) == text::join(text::lines(s), "\n"@),
{
    assert(text::lines(s).skip(0) =~= text::lines(s));
}

} // verus!
