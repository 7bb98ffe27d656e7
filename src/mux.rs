//! Draining a remote command's stdout and stderr into one log.
//!
//! The caller races the two streams and hands each line, and each end of a
//! stream, to a [`Drain`]; the drain says what to log and when both streams
//! are exhausted, after which the caller waits for the process.
use vstd::prelude::*;
use vstd::string::*;

verus! {

/// One of the two output streams of a child process.
#[derive(Clone, Copy, Debug, PartialEq, Eq, Structural)]
pub enum Stream {
    Stdout,
    Stderr,
}

/// A line to log, tagged with the stream it came from.
#[derive(Clone, Debug)]
pub struct LogLine {
    pub stream: Stream,
    pub text: String,
}

/// What the reader of the two streams observed.
#[derive(Clone, Debug)]
pub enum StreamEvent {
    /// A complete line (or the unterminated last one) read from a stream.
    Line(Stream, String),
    /// The stream reached its end, or could no longer be read.
    Closed(Stream),
}

/// The exit status of a finished process: its exit code, absent when it was
/// ended by a signal.
#[derive(Clone, Copy, Debug, PartialEq, Eq, Structural)]
pub struct ExitInfo {
    pub code: Option<i32>,
}

impl ExitInfo {
    pub open spec fn succeeded(self) -> bool {
        self.code == Some(0i32)
    }

    /// Whether the process exited with code zero.
    pub fn success(&self) -> (r: bool)
        ensures
            r == self.succeeded(),
    {
        match self.code {
            Some(c) => c == 0,
            None => false,
        }
    }
}

/// Why a command run through the multiplexer produced no exit status.
#[derive(Clone, Debug)]
pub enum MuxError {
    /// The process could not be started.
    SpawnFailed(String),
    /// The process was started but its exit could not be awaited.
    WaitFailed(String),
}

/// Which of the two streams are still being read.
#[derive(Clone, Copy, Debug, PartialEq, Eq, Structural)]
pub struct Drain {
    pub stdout_open: bool,
    pub stderr_open: bool,
}

impl Drain {
    pub open spec fn is_open(self, s: Stream) -> bool {
        match s {
            Stream::Stdout => self.stdout_open,
            Stream::Stderr => self.stderr_open,
        }
    }

    /// The state after observing `ev`.
    pub open spec fn after(self, ev: StreamEvent) -> Drain {
        match ev {
            StreamEvent::Line(_, _) => self,
            StreamEvent::Closed(Stream::Stdout) => Drain { stdout_open: false, ..self },
            StreamEvent::Closed(Stream::Stderr) => Drain { stderr_open: false, ..self },
        }
    }

    /// What observing `ev` puts in the log: a line of a stream still read.
    pub open spec fn emits(self, ev: StreamEvent) -> Option<LogLine> {
        match ev {
            StreamEvent::Line(s, text) => if self.is_open(s) {
                Some(LogLine { stream: s, text })
            } else {
                None
            },
            StreamEvent::Closed(_) => None,
        }
    }

    /// Start draining; a stream whose handle could not be had is not read.
    pub fn new(has_stdout: bool, has_stderr: bool) -> (r: Drain)
        ensures
            r.stdout_open == has_stdout,
            r.stderr_open == has_stderr,
    {
        Drain { stdout_open: has_stdout, stderr_open: has_stderr }
    }

    /// Whether `s` is still to be read.
    pub fn reads(&self, s: Stream) -> (r: bool)
        ensures
            r == self.is_open(s),
    {
        match s {
            Stream::Stdout => self.stdout_open,
            Stream::Stderr => self.stderr_open,
        }
    }

    /// Record `ev`, returning the line to log, if any.
    pub fn on_event(&mut self, ev: StreamEvent) -> (r: Option<LogLine>)
        ensures
            *final(self) == old(self).after(ev),
            r == old(self).emits(ev),
    {
        match ev {
            StreamEvent::Line(s, text) => {
                if self.reads(s) {
                    Some(LogLine { stream: s, text })
                } else {
                    None
                }
            },
            StreamEvent::Closed(Stream::Stdout) => {
                self.stdout_open = false;
                None
            },
            StreamEvent::Closed(Stream::Stderr) => {
                self.stderr_open = false;
                None
            },
        }
    }

    /// Whether both streams are exhausted, so that the process can be awaited.
    pub fn is_drained(&self) -> (r: bool)
        ensures
            r == (!self.stdout_open && !self.stderr_open),
    {
        !self.stdout_open && !self.stderr_open
    }
}

/// The warning logged when a stream's handle could not be had.
pub open spec fn missing_stream_message(s: Stream) -> Seq<char> {
    match s {
        Stream::Stdout => "Could not take child stdout, stdout will not be logged"@,
        Stream::Stderr => "Could not take child stderr, stderr will not be logged"@,
    }
}

pub fn missing_stream_warning(s: Stream) -> (r: String)
    ensures
        r@ == missing_stream_message(s),
{
    match s {
        Stream::Stdout => String::from_str("Could not take child stdout, stdout will not be logged"),
        Stream::Stderr => String::from_str("Could not take child stderr, stderr will not be logged"),
    }
}

/// The multiplexer's result once the process has been awaited: the exit
/// status as it is, whatever its code, or `WaitFailed` when waiting failed.
pub fn finish(wait: Result<ExitInfo, String>) -> (r: Result<ExitInfo, MuxError>)
    ensures
        match wait {
            Ok(st) => r == Ok::<ExitInfo, MuxError>(st),
            Err(m) => r == Err::<ExitInfo, MuxError>(MuxError::WaitFailed(m)),
        },
{
    match wait {
        Ok(st) => Ok(st),
        Err(m) => Err(MuxError::WaitFailed(m)),
    }
}

// The log produced by a sequence of events, and the lines it holds.

/// The state after observing `evs` in order.
pub open spec fn drain_after(d: Drain, evs: Seq<StreamEvent>) -> Drain
    decreases evs.len(),
{
    if evs.len() == 0 {
        d
    } else {
        drain_after(d.after(evs[0]), evs.drop_first())
    }
}

/// The log entries produced by observing `evs` in order.
pub open spec fn log_of(d: Drain, evs: Seq<StreamEvent>) -> Seq<LogLine>
    decreases evs.len(),
{
    if evs.len() == 0 {
        seq![]
    } else {
        let rest = log_of(d.after(evs[0]), evs.drop_first());
        match d.emits(evs[0]) {
            Some(l) => seq![l] + rest,
            None => rest,
        }
    }
}

/// Whether `evs` is a possible reading: no stream yields a line once it has
/// ended (or was never read).
pub open spec fn well_formed(d: Drain, evs: Seq<StreamEvent>) -> bool
    decreases evs.len(),
{
    evs.len() == 0 || ({
        &&& match evs[0] {
            StreamEvent::Line(s, _) => d.is_open(s),
            StreamEvent::Closed(_) => true,
        }
        &&& well_formed(d.after(evs[0]), evs.drop_first())
    })
}

/// The texts of the lines that `evs` reads from `s`, in order.
pub open spec fn lines_read(evs: Seq<StreamEvent>, s: Stream) -> Seq<Seq<char>>
    decreases evs.len(),
{
    if evs.len() == 0 {
        seq![]
    } else {
        let rest = lines_read(evs.drop_first(), s);
        match evs[0] {
            StreamEvent::Line(s2, t) => if s2 == s {
                seq![t@] + rest
            } else {
                rest
            },
            StreamEvent::Closed(_) => rest,
        }
    }
}

/// The texts of the entries of `log` tagged `s`, in order.
pub open spec fn lines_logged(log: Seq<LogLine>, s: Stream) -> Seq<Seq<char>>
    decreases log.len(),
{
    if log.len() == 0 {
        seq![]
    } else {
        let rest = lines_logged(log.drop_first(), s);
        if log[0].stream == s {
            seq![log[0].text@] + rest
        } else {
            rest
        }
    }
}

/// Draining loses and reorders nothing: for any possible reading of the two
/// streams, the log holds one entry per line read, the lines of each stream
/// appear in the order they were read, and once both streams have ended the
/// drain reports itself exhausted.
pub proof fn lemma_drain_complete(d: Drain, evs: Seq<StreamEvent>)
    requires
        well_formed(d, evs),
    ensures
        lines_logged(log_of(d, evs), Stream::Stdout) == lines_read(evs, Stream::Stdout),
        lines_logged(log_of(d, evs), Stream::Stderr) == lines_read(evs, Stream::Stderr),
        log_of(d, evs).len() == lines_read(evs, Stream::Stdout).len() + lines_read(evs, Stream::Stderr).len(),
        (exists|i: int, j: int|
            0 <= i < evs.len() && 0 <= j < evs.len()
            && evs[i] == StreamEvent::Closed(Stream::Stdout)
            && evs[j] == StreamEvent::Closed(Stream::Stderr))
            ==> !drain_after(d, evs).stdout_open && !drain_after(d, evs).stderr_open,
    decreases evs.len(),
{
    if evs.len() > 0 {
        let rest = evs.drop_first();
        lemma_drain_complete(d.after(evs[0]), rest);
        let log = log_of(d, evs);
        match d.emits(evs[0]) {
            Some(l) => {
                assert(log.drop_first() =~= log_of(d.after(evs[0]), rest));
            },
            None => {},
        }
        lemma_closed_stays(d, evs);
    }
}

/// Once a stream has ended it is never read again.
proof fn lemma_closed_stays(d: Drain, evs: Seq<StreamEvent>)
    ensures
        !d.stdout_open ==> !drain_after(d, evs).stdout_open,
        !d.stderr_open ==> !drain_after(d, evs).stderr_open,
        (exists|i: int| 0 <= i < evs.len() && evs[i] == StreamEvent::Closed(Stream::Stdout))
            ==> !drain_after(d, evs).stdout_open,
        (exists|i: int| 0 <= i < evs.len() && evs[i] == StreamEvent::Closed(Stream::Stderr))
            ==> !drain_after(d, evs).stderr_open,
    decreases evs.len(),
{
    if evs.len() > 0 {
        let rest = evs.drop_first();
        lemma_closed_stays(d.after(evs[0]), rest);
        assert forall|i: int| 0 < i < evs.len() implies evs[i] == rest[i - 1] by {}
    }
}

} // verus!
