//! Running a command on the remote host: what is sent, and what is made of
//! the bytes that come back.
//!
//! The session itself belongs to the caller. The caller reads from the
//! channel and hands over what it read; the decisions are taken here.

use crate::models::app_state::{CommandOutput, RemoteInfo};
use crate::text::{replaced, replace_text, same_text, string_from_utf8, string_from_utf8_lossy,
    utf8_lossy};
use vstd::prelude::*;
use vstd::string::*;
use vstd::utf8::{decode_utf8, valid_utf8};

verus! {

/// `cmd` as it is handed to the shell `shell`: dollar signs that were
/// escaped for the local shell are set free, and the whole is put between
/// single quotes, with every single quote of its own closed, escaped and
/// opened again.
pub open spec fn shell_wrapped(shell: Seq<char>, cmd: Seq<char>) -> Seq<char> {
    shell + " -c '"@ + replaced(replaced(cmd, "\\$"@, "$"@), "'"@, "'\\''"@) + "'"@
}

/// The size of the pseudo-terminal, in columns and rows: that of the local
/// terminal, or 120 by 30 when there is none.
pub open spec fn pty_size_of(terminal: Option<(u16, u16)>) -> (u32, u32) {
    match terminal {
        Some((cols, rows)) => (cols as u32, rows as u32),
        None => (120, 30),
    }
}

impl RemoteInfo {
    fn wrap(shell: &str, cmd: &str) -> (r: String)
        ensures
            r@ == shell_wrapped(shell@, cmd@),
    {
        let freed = replace_text(cmd, "\\$", "$");
        let quoted = replace_text(freed.as_str(), "'", "'\\''");
        let mut s = String::from_str(shell);
        s.append(" -c '");
        s.append(quoted.as_str());
        s.append("'");
        s
    }

    /// The command line that runs `cmd` to its end on the remote host.
    pub fn exec_command(&self, cmd: &str) -> (r: String)
        ensures
            r@ == shell_wrapped("bash"@, cmd@),
    {
        Self::wrap("bash", cmd)
    }

    /// The command line that runs `cmd` on the remote host while its output
    /// is read line by line.
    pub fn stream_command(&self, cmd: &str) -> (r: String)
        ensures
            r@ == shell_wrapped("sh"@, cmd@),
    {
        Self::wrap("sh", cmd)
    }

    /// The size of the pseudo-terminal for a command whose output is
    /// streamed.
    pub fn pty_size(terminal: Option<(u16, u16)>) -> (size: (u32, u32))
        ensures
            size == pty_size_of(terminal),
    {
        match terminal {
            Some((cols, rows)) => (cols as u32, rows as u32),
            None => (120, 30),
        }
    }
}

/// What one read from a channel gave.
#[derive(Clone, Debug, PartialEq, Eq)]
pub enum ReadOutcome {
    /// Some bytes, at least one.
    Data { bytes: Vec<u8> },
    /// No bytes.
    Nothing,
    /// The channel has nothing to read right now.
    WouldBlock,
    /// The read failed.
    Failed { error: String },
}

/// What the caller does after a round of reads.
#[derive(Clone, Debug, PartialEq, Eq)]
pub enum PollAction {
    /// Read again at once.
    Continue,
    /// Wait for so many milliseconds, then read again.
    Sleep { millis: u64 },
    /// Stop reading: the command has ended.
    Stop,
    /// Give up with this error.
    Fail { error: String },
}

/// What one round of reads gave: what to show on the local console, and
/// what to do next.
#[derive(Clone, Debug, PartialEq, Eq)]
pub struct PollStep {
    pub echo_stdout: Option<String>,
    pub echo_stderr: Option<String>,
    pub action: PollAction,
}

/// The text that a read adds to what was captured.
pub open spec fn chunk_of(outcome: ReadOutcome) -> Seq<char> {
    match outcome {
        ReadOutcome::Data { bytes } => utf8_lossy(bytes@),
        _ => Seq::empty(),
    }
}

/// What is shown on the local console for a chunk that was read from the
/// remote standard output. The word `exited` alone is not shown.
pub open spec fn stdout_echo(outcome: ReadOutcome) -> Option<Seq<char>> {
    match outcome {
        ReadOutcome::Data { bytes } => if utf8_lossy(bytes@) == "exited"@ {
            None
        } else {
            Some("[Remote Log]: "@ + utf8_lossy(bytes@))
        },
        _ => None,
    }
}

/// What is shown on the local console for a chunk that was read from the
/// remote standard error.
pub open spec fn stderr_echo(outcome: ReadOutcome) -> Option<Seq<char>> {
    match outcome {
        ReadOutcome::Data { bytes } => Some("[Remote Error Log]: "@ + utf8_lossy(bytes@)),
        _ => None,
    }
}

pub open spec fn opt_text(o: Option<String>) -> Option<Seq<char>> {
    match o {
        Some(s) => Some(s@),
        None => None,
    }
}

/// What follows a round of reads in which nothing failed: the capture
/// stops when the channel is at its end, reads on at once when a stream had
/// something, and waits 50 ms otherwise.
pub open spec fn next_poll(out: ReadOutcome, err: ReadOutcome, eof: bool) -> PollAction {
    if eof {
        PollAction::Stop
    } else if out is Data || err is Data {
        PollAction::Continue
    } else {
        PollAction::Sleep { millis: 50 }
    }
}

/// Collects what a remote command prints until the command ends.
pub struct ExecCapture {
    pub stdout: String,
    pub stderr: String,
}

impl ExecCapture {
    /// Nothing captured yet.
    pub fn new() -> (c: Self)
        ensures
            c.stdout@.len() == 0,
            c.stderr@.len() == 0,
    {
        ExecCapture { stdout: String::new(), stderr: String::new() }
    }

    /// Takes in one round of reads: one from the standard output, one from
    /// the standard error, and whether the channel is at its end.
    ///
    /// A failed read ends the capture with its error, the standard output
    /// first. Otherwise what was read is added to what was captured. The
    /// capture stops when the channel is at its end; it waits 50 ms when
    /// neither stream had anything, and reads on at once when one had.
    pub fn on_poll(&mut self, out: ReadOutcome, err: ReadOutcome, eof: bool) -> (step: PollStep)
        ensures
            match out {
                ReadOutcome::Failed { error } => {
                    &&& step.action == (PollAction::Fail { error })
                    &&& *final(self) == *old(self)
                    &&& step.echo_stdout is None
                    &&& step.echo_stderr is None
                },
                _ => {
                    &&& final(self).stdout@ == old(self).stdout@ + chunk_of(out)
                    &&& opt_text(step.echo_stdout) == stdout_echo(out)
                    &&& match err {
                        ReadOutcome::Failed { error } => {
                            &&& step.action == (PollAction::Fail { error })
                            &&& final(self).stderr == old(self).stderr
                            &&& step.echo_stderr is None
                        },
                        _ => {
                            &&& final(self).stderr@ == old(self).stderr@ + chunk_of(err)
                            &&& opt_text(step.echo_stderr) == stderr_echo(err)
                            &&& step.action == next_poll(out, err, eof)
                        },
                    }
                },
            },
    {
        let mut made_progress = false;
        let mut echo_stdout: Option<String> = None;
        let mut echo_stderr: Option<String> = None;
        match out {
            ReadOutcome::Data { bytes } => {
                made_progress = true;
                let chunk = string_from_utf8_lossy(&bytes);
                if !same_text(chunk.as_str(), "exited") {
                    let mut shown = String::from_str("[Remote Log]: ");
                    shown.append(chunk.as_str());
                    echo_stdout = Some(shown);
                }
                self.stdout.append(chunk.as_str());
            },
            ReadOutcome::Failed { error } => {
                return PollStep {
                    echo_stdout: None,
                    echo_stderr: None,
                    action: PollAction::Fail { error },
                };
            },
            _ => {
                assert(self.stdout@ + Seq::<char>::empty() =~= self.stdout@);
            },
        }
        match err {
            ReadOutcome::Data { bytes } => {
                made_progress = true;
                let chunk = string_from_utf8_lossy(&bytes);
                let mut shown = String::from_str("[Remote Error Log]: ");
                shown.append(chunk.as_str());
                echo_stderr = Some(shown);
                self.stderr.append(chunk.as_str());
            },
            ReadOutcome::Failed { error } => {
                return PollStep { echo_stdout, echo_stderr: None, action: PollAction::Fail { error } };
            },
            _ => {
                assert(self.stderr@ + Seq::<char>::empty() =~= self.stderr@);
            },
        }
        let action = if eof {
            PollAction::Stop
        } else if made_progress {
            PollAction::Continue
        } else {
            PollAction::Sleep { millis: 50 }
        };
        PollStep { echo_stdout, echo_stderr, action }
    }

    /// What the command printed and how it ended.
    pub fn finish(self, status: i32) -> (output: CommandOutput)
        ensures
            output.stdout == self.stdout,
            output.stderr == self.stderr,
            output.status == status,
    {
        CommandOutput { stdout: self.stdout, stderr: self.stderr, status }
    }
}

/// The index of the first line feed in `bytes`, or the length of `bytes`
/// when there is none.
pub open spec fn first_line_feed(bytes: Seq<u8>) -> int
    decreases bytes.len(),
{
    if bytes.len() == 0 || bytes[0] == 10u8 {
        0
    } else {
        1 + first_line_feed(bytes.skip(1))
    }
}

/// The lines of `bytes` that are complete, each without its line feed.
pub open spec fn complete_lines(bytes: Seq<u8>) -> Seq<Seq<u8>>
    decreases bytes.len(),
{
    let i = first_line_feed(bytes);
    if i < 0 || i >= bytes.len() {
        Seq::empty()
    } else {
        seq![bytes.take(i)] + complete_lines(bytes.skip(i + 1))
    }
}

/// What follows the last line feed of `bytes`.
pub open spec fn unfinished_line(bytes: Seq<u8>) -> Seq<u8>
    decreases bytes.len(),
{
    let i = first_line_feed(bytes);
    if i < 0 || i >= bytes.len() {
        bytes
    } else {
        unfinished_line(bytes.skip(i + 1))
    }
}

/// The texts of the lines that are valid UTF-8, in order; the others are
/// left out.
pub open spec fn decoded_lines(lines: Seq<Seq<u8>>) -> Seq<Seq<char>>
    decreases lines.len(),
{
    if lines.len() == 0 {
        Seq::empty()
    } else if valid_utf8(lines.last()) {
        decoded_lines(lines.drop_last()).push(decode_utf8(lines.last()))
    } else {
        decoded_lines(lines.drop_last())
    }
}

pub open spec fn line_texts(lines: Seq<String>) -> Seq<Seq<char>> {
    Seq::new(lines.len(), |i: int| lines[i]@)
}

proof fn lemma_first_line_feed(bytes: Seq<u8>, i: int)
    requires
        0 <= i <= bytes.len(),
        forall|j: int| 0 <= j < i ==> bytes[j] != 10u8,
        i < bytes.len() ==> bytes[i] == 10u8,
    ensures
        first_line_feed(bytes) == i,
    decreases i,
{
    if i > 0 {
        let t = bytes.skip(1);
        assert forall|j: int| 0 <= j < i - 1 implies t[j] != 10u8 by {
            assert(t[j] == bytes[j + 1]);
        }
        lemma_first_line_feed(t, i - 1);
    }
}

/// Splits a stream of bytes into lines as the bytes come in.
pub struct RemoteLineIterator {
    /// The bytes of the line that is not complete yet.
    pub buffer: Vec<u8>,
}

impl RemoteLineIterator {
    /// A splitter that has seen nothing.
    pub fn new() -> (r: Self)
        ensures
            r.buffer@.len() == 0,
    {
        RemoteLineIterator { buffer: Vec::new() }
    }

    /// Takes `chunk` in and hands out the lines that it completes, in
    /// order, each without its line feed. A line that is not valid UTF-8
    /// is dropped. What follows the last line feed is kept for later.
    pub fn feed(&mut self, chunk: &[u8]) -> (lines: Vec<String>)
        ensures
            line_texts(lines@) == decoded_lines(complete_lines(old(self).buffer@ + chunk@)),
            final(self).buffer@ == unfinished_line(old(self).buffer@ + chunk@),
    {
        let mut all: Vec<u8> = Vec::new();
        let mut k: usize = 0;
        while k < self.buffer.len()
            invariant
                k <= self.buffer.len(),
                all@ == self.buffer@.take(k as int),
                *self == *old(self),
            decreases self.buffer.len() - k,
        {
            all.push(self.buffer[k]);
            assert(self.buffer@.take(k + 1) =~= self.buffer@.take(k as int).push(
                self.buffer@[k as int],
            ));
            k += 1;
        }
        assert(self.buffer@.take(self.buffer@.len() as int) =~= self.buffer@);
        let mut c: usize = 0;
        while c < chunk.len()
            invariant
                c <= chunk.len(),
                all@ == self.buffer@ + chunk@.take(c as int),
                *self == *old(self),
            decreases chunk.len() - c,
        {
            all.push(chunk[c]);
            assert(self.buffer@ + chunk@.take(c + 1) =~= (self.buffer@ + chunk@.take(
                c as int,
            )).push(chunk@[c as int]));
            c += 1;
        }
        assert(chunk@.take(chunk@.len() as int) =~= chunk@);
        let ghost whole = all@;
        let mut lines: Vec<String> = Vec::new();
        let mut done: Ghost<Seq<Seq<u8>>> = Ghost(Seq::empty());
        let mut start: usize = 0;
        let mut i: usize = 0;
        let mut line: Vec<u8> = Vec::new();
        proof {
            assert(whole.skip(0) =~= whole);
            assert(line_texts(lines@) =~= decoded_lines(done@));
            assert(done@ + complete_lines(whole) =~= complete_lines(whole));
        }
        while i < all.len()
            invariant
                start <= i <= all.len(),
                all@ == whole,
                line@ == whole.subrange(start as int, i as int),
                forall|j: int| start <= j < i ==> whole[j] != 10u8,
                complete_lines(whole) == done@ + complete_lines(whole.skip(start as int)),
                unfinished_line(whole) == unfinished_line(whole.skip(start as int)),
                line_texts(lines@) == decoded_lines(done@),
            decreases all.len() - i,
        {
            let b: u8 = all[i];
            if b == 10u8 {
                proof {
                    let rest = whole.skip(start as int);
                    assert forall|j: int| 0 <= j < i - start implies rest[j] != 10u8 by {
                        assert(rest[j] == whole[start + j]);
                    }
                    lemma_first_line_feed(rest, i - start);
                    assert(rest.take(i - start) =~= line@);
                    assert(rest.skip(i - start + 1) =~= whole.skip(i + 1));
                    assert(done@ + (seq![line@] + complete_lines(whole.skip(i + 1))) =~= done@.push(
                        line@,
                    ) + complete_lines(whole.skip(i + 1)));
                    assert(done@.push(line@).drop_last() =~= done@);
                }
                let ghost texts_before = line_texts(lines@);
                let ghost line_bytes = line@;
                match string_from_utf8(line) {
                    Some(text) => {
                        lines.push(text);
                        assert(line_texts(lines@) =~= texts_before.push(decode_utf8(line_bytes)));
                    },
                    None => {},
                }
                proof {
                    done@ = done@.push(line_bytes);
                }
                line = Vec::new();
                start = i + 1;
                assert(line@ =~= whole.subrange(start as int, i + 1));
            } else {
                line.push(b);
                assert(whole.subrange(start as int, i + 1) =~= whole.subrange(
                    start as int,
                    i as int,
                ).push(b));
            }
            i += 1;
        }
        proof {
            let rest = whole.skip(start as int);
            assert forall|j: int| 0 <= j < rest.len() implies rest[j] != 10u8 by {
                assert(rest[j] == whole[start + j]);
            }
            lemma_first_line_feed(rest, rest.len() as int);
            assert(line@ =~= rest);
            assert(done@ + Seq::<Seq<u8>>::empty() =~= done@);
        }
        self.buffer = line;
        lines
    }

    /// At the end of the stream: the text that was left without a line
    /// feed, if there is any and it is valid UTF-8. Nothing is kept.
    pub fn finish(&mut self) -> (last: Option<String>)
        ensures
            final(self).buffer@.len() == 0,
            last is Some <==> old(self).buffer@.len() > 0 && valid_utf8(old(self).buffer@),
            last is Some ==> last->0@ == decode_utf8(old(self).buffer@),
    {
        let mut rest: Vec<u8> = Vec::new();
        core::mem::swap(&mut self.buffer, &mut rest);
        if rest.len() == 0 {
            return None;
        }
        string_from_utf8(rest)
    }

    /// What the reader does after a read of the remote channel.
    ///
    /// After data it reads on, unless the channel is at its end. When the
    /// channel has nothing right now it waits 30 ms, unless the channel is
    /// at its end. Any other failure ends the reading.
    pub fn after_read(outcome: &ReadOutcome, eof: bool) -> (action: PollAction)
        ensures
            action == (if eof || outcome is Failed {
                PollAction::Stop
            } else if outcome is WouldBlock {
                PollAction::Sleep { millis: 30 }
            } else {
                PollAction::Continue
            }),
    {
        if eof {
            return PollAction::Stop;
        }
        match outcome {
            ReadOutcome::Failed { .. } => PollAction::Stop,
            ReadOutcome::WouldBlock => PollAction::Sleep { millis: 30 },
            _ => PollAction::Continue,
        }
    }
}

} // verus!

verus! {

proof fn lemma_first_line_feed_is_first(bytes: Seq<u8>)
    ensures
        0 <= first_line_feed(bytes) <= bytes.len(),
        forall|j: int| 0 <= j < first_line_feed(bytes) ==> bytes[j] != 10u8,
        first_line_feed(bytes) < bytes.len() ==> bytes[first_line_feed(bytes)] == 10u8,
    decreases bytes.len(),
{
    if bytes.len() > 0 && bytes[0] != 10u8 {
        let t = bytes.skip(1);
        lemma_first_line_feed_is_first(t);
        assert forall|j: int| 0 <= j < first_line_feed(bytes) implies bytes[j] != 10u8 by {
            if j > 0 {
                assert(t[j - 1] == bytes[j]);
            }
        }
        if first_line_feed(bytes) < bytes.len() {
            assert(t[first_line_feed(t)] == bytes[first_line_feed(t) + 1]);
        }
    }
}

/// The texts of two lists of lines, one after the other, are the texts
/// of the one list followed by the texts of the other.
pub proof fn lemma_decoded_lines_concat(x: Seq<Seq<u8>>, y: Seq<Seq<u8>>)
    ensures
        decoded_lines(x + y) == decoded_lines(x) + decoded_lines(y),
    decreases y.len(),
{
    if y.len() == 0 {
        assert(x + y =~= x);
        assert(decoded_lines(x) + decoded_lines(y) =~= decoded_lines(x));
    } else {
        lemma_decoded_lines_concat(x, y.drop_last());
        assert((x + y).drop_last() =~= x + y.drop_last());
        assert((x + y).last() == y.last());
        if valid_utf8(y.last()) {
            assert((decoded_lines(x) + decoded_lines(y.drop_last())).push(decode_utf8(y.last()))
                =~= decoded_lines(x) + decoded_lines(y.drop_last()).push(decode_utf8(y.last())));
        }
    }
}

/// It does not matter in what pieces the bytes arrive: the lines that
/// `a` and `b` complete together are the lines that `a` completes,
/// followed by the lines that `b` completes after what `a` left
/// unfinished; and the same is left unfinished in the end.
pub proof fn lemma_lines_do_not_depend_on_chunks(a: Seq<u8>, b: Seq<u8>)
    ensures
        complete_lines(a + b) == complete_lines(a) + complete_lines(unfinished_line(a) + b),
        unfinished_line(a + b) == unfinished_line(unfinished_line(a) + b),
        decoded_lines(complete_lines(a + b)) == decoded_lines(complete_lines(a)) + decoded_lines(
            complete_lines(unfinished_line(a) + b),
        ),
    decreases a.len(),
{
    let i = first_line_feed(a);
    lemma_first_line_feed_is_first(a);
    if i >= a.len() {
        assert(complete_lines(a) + complete_lines(a + b) =~= complete_lines(a + b));
    } else {
        let whole = a + b;
        assert forall|j: int| 0 <= j < i implies whole[j] != 10u8 by {
            assert(whole[j] == a[j]);
        }
        assert(whole[i] == a[i]);
        lemma_first_line_feed(whole, i);
        let rest = a.skip(i + 1);
        assert(whole.take(i) =~= a.take(i));
        assert(whole.skip(i + 1) =~= rest + b);
        lemma_lines_do_not_depend_on_chunks(rest, b);
        assert(seq![a.take(i)] + (complete_lines(rest) + complete_lines(unfinished_line(rest) + b))
            =~= (seq![a.take(i)] + complete_lines(rest)) + complete_lines(
            unfinished_line(rest) + b,
        ));
    }
    lemma_decoded_lines_concat(complete_lines(a), complete_lines(unfinished_line(a) + b));
}

} // verus!
