//! Watching a growing log file for its request rate.
//!
//! Every two seconds the watcher reads what was appended to the log since
//! its last read and reports the number of lines per second. A file that
//! stays without new lines for three reads is reopened (it may have been
//! rotated), and the owner can ask the watcher to reopen the file or to
//! stop.

use vstd::prelude::*;

verus! {

/// The byte that ends a log line.
pub const NEWLINE: u8 = 0x0a;

/// How many reads that found nothing make the watcher reopen the file.
pub const EMPTY_READS_BEFORE_REOPEN: u32 = 3;

/// The number of lines that `bytes` ends: the number of newline bytes in it.
pub open spec fn newline_count(bytes: Seq<u8>) -> nat
    decreases bytes.len(),
{
    if bytes.len() == 0 {
        0
    } else {
        newline_count(bytes.drop_last()) + if bytes.last() == NEWLINE {
            1nat
        } else {
            0nat
        }
    }
}

/// A text never ends more lines than it has bytes.
pub proof fn lemma_newline_count_bound(bytes: Seq<u8>)
    ensures
        newline_count(bytes) <= bytes.len(),
    decreases bytes.len(),
{
    if bytes.len() > 0 {
        lemma_newline_count_bound(bytes.drop_last());
    }
}

/// Counts the lines that the first `size` bytes of `buf` end.
pub fn count_lines(buf: &[u8], size: usize) -> (n: u32)
    requires
        size <= buf@.len(),
        size <= u32::MAX,
    ensures
        n == newline_count(buf@.take(size as int)),
{
    let mut n: u32 = 0;
    let mut i: usize = 0;
    assert(buf@.take(0) =~= Seq::<u8>::empty());
    while i < size
        invariant
            size <= buf@.len(),
            size <= u32::MAX,
            i <= size,
            n == newline_count(buf@.take(i as int)),
        decreases size - i,
    {
        assert(buf@.take(i + 1).drop_last() =~= buf@.take(i as int));
        proof {
            lemma_newline_count_bound(buf@.take(i as int));
        }
        if buf[i] == NEWLINE {
            n = n + 1;
        }
        i = i + 1;
    }
    n
}

/// The rate that `lines` new lines over the two-second read interval make:
/// half of them, except that a single line still counts as a rate of 1.
pub open spec fn lines_to_qps(lines: nat) -> nat {
    if lines > 0 && lines / 2 == 0 {
        1
    } else {
        lines / 2
    }
}

/// The rate that `lines` new lines over the two-second read interval make.
pub fn qps_from_lines(lines: u32) -> (qps: u32)
    ensures
        qps == lines_to_qps(lines as nat),
{
    if lines > 0 && lines / 2 == 0 {
        1
    } else {
        lines / 2
    }
}

/// A rate is reported exactly when some line was written, and it is never
/// more than the number of lines.
pub proof fn lemma_qps_nonzero_iff_lines(lines: nat)
    ensures
        lines_to_qps(lines) > 0 <==> lines > 0,
        lines_to_qps(lines) <= lines,
        lines == 1 ==> lines_to_qps(lines) == 1,
        lines >= 2 ==> lines_to_qps(lines) == lines / 2,
{
}

/// What the watcher is told: a request of its owner (`true` to stop, `false`
/// to reopen the file), or what one read of the file found.
pub enum WatchInput {
    Control(bool),
    Read(Seq<u8>),
}

/// What the watcher does next.
#[derive(Debug, Clone, Copy, PartialEq, Eq, Structural)]
pub enum WatchAction {
    /// Stop watching.
    Exit,
    /// Reopen the file at its end and go on watching.
    Reopen,
    /// Report this rate and go on reading.
    Report(u32),
    /// Report this rate, then reopen the file at its end.
    ReportThenReopen(u32),
}

/// One step of the watcher: from the number of reads that found nothing
/// since the file was (re)opened, and an input, the next such number and
/// the action to take.
pub open spec fn watch_step(empty_reads: nat, input: WatchInput) -> (nat, WatchAction) {
    match input {
        WatchInput::Control(exit) => if exit {
            (empty_reads, WatchAction::Exit)
        } else {
            (0, WatchAction::Reopen)
        },
        WatchInput::Read(data) => if data.len() == 0 {
            if empty_reads + 1 >= EMPTY_READS_BEFORE_REOPEN {
                (0, WatchAction::ReportThenReopen(0))
            } else {
                ((empty_reads + 1) as nat, WatchAction::Report(0))
            }
        } else {
            (empty_reads, WatchAction::Report(lines_to_qps(newline_count(data)) as u32))
        },
    }
}

/// The decisions of a log watcher: how many reads found nothing since the
/// file was last (re)opened.
pub struct QpsWatch {
    empty_reads: u32,
}

impl View for QpsWatch {
    type V = nat;

    closed spec fn view(&self) -> nat {
        self.empty_reads as nat
    }
}

impl QpsWatch {
    #[verifier::type_invariant]
    closed spec fn inv(self) -> bool {
        self.empty_reads < EMPTY_READS_BEFORE_REOPEN
    }

    /// A watcher for a file just opened.
    pub fn new() -> (w: QpsWatch)
        ensures
            w@ == 0,
    {
        QpsWatch { empty_reads: 0 }
    }

    /// Takes a request of the owner: `true` to stop, `false` to reopen.
    pub fn on_control(&mut self, exit: bool) -> (a: WatchAction)
        ensures
            (final(self)@, a) == watch_step(old(self)@, WatchInput::Control(exit)),
            final(self)@ < EMPTY_READS_BEFORE_REOPEN,
    {
        proof {
            use_type_invariant(&*self);
        }
        if exit {
            WatchAction::Exit
        } else {
            self.empty_reads = 0;
            WatchAction::Reopen
        }
    }

    /// Takes what one read of the file found.
    pub fn on_read(&mut self, data: &[u8]) -> (a: WatchAction)
        requires
            data@.len() <= u32::MAX,
        ensures
            (final(self)@, a) == watch_step(old(self)@, WatchInput::Read(data@)),
            final(self)@ < EMPTY_READS_BEFORE_REOPEN,
    {
        proof {
            use_type_invariant(&*self);
        }
        if data.len() == 0 {
            if self.empty_reads + 1 >= EMPTY_READS_BEFORE_REOPEN {
                self.empty_reads = 0;
                WatchAction::ReportThenReopen(0)
            } else {
                self.empty_reads = self.empty_reads + 1;
                WatchAction::Report(0)
            }
        } else {
            let lines = count_lines(data, data.len());
            assert(data@.take(data@.len() as int) =~= data@);
            WatchAction::Report(qps_from_lines(lines))
        }
    }
}

/// Every step keeps the count of reads that found nothing below the limit.
pub proof fn lemma_watch_step_bounded(empty_reads: nat, input: WatchInput)
    requires
        empty_reads < EMPTY_READS_BEFORE_REOPEN,
    ensures
        watch_step(empty_reads, input).0 < EMPTY_READS_BEFORE_REOPEN,
{
}

/// Three reads in a row that find nothing make the watcher reopen the file,
/// whatever it had counted before, and each of them reports a rate of 0.
pub proof fn lemma_three_empty_reads_reopen(empty_reads: nat)
    requires
        empty_reads < EMPTY_READS_BEFORE_REOPEN,
    ensures
        ({
            let empty = WatchInput::Read(Seq::<u8>::empty());
            let s1 = watch_step(empty_reads, empty);
            let s2 = watch_step(s1.0, empty);
            let s3 = watch_step(s2.0, empty);
            &&& s1.1 == WatchAction::ReportThenReopen(0) || s2.1 == WatchAction::ReportThenReopen(0)
                || s3.1 == WatchAction::ReportThenReopen(0)
            &&& s1.1 is Report || s1.1 is ReportThenReopen
            &&& (s1.1 matches WatchAction::Report(q) ==> q == 0)
            &&& (s2.1 matches WatchAction::Report(q) ==> q == 0)
            &&& (s3.1 matches WatchAction::Report(q) ==> q == 0)
        }),
{
}

/// A read that finds new data never brings the watcher closer to reopening
/// the file, and a request to reopen starts the count afresh.
pub proof fn lemma_data_keeps_count(empty_reads: nat, data: Seq<u8>)
    requires
        data.len() > 0,
    ensures
        watch_step(empty_reads, WatchInput::Read(data)).0 == empty_reads,
        watch_step(empty_reads, WatchInput::Control(false)) == (0nat, WatchAction::Reopen),
{
}

/// The key under which a value named `field` is published for the host
/// `prefix`: the two joined by a colon.
pub fn redis_key(prefix: &str, field: &str) -> (key: String)
    ensures
        key@ == prefix@ + seq![':'] + field@,
{
    let mut key = prefix.to_owned();
    proof {
        reveal_strlit(":");
    }
    vstd::string::StringExecFns::append(&mut key, ":");
    vstd::string::StringExecFns::append(&mut key, field);
    key
}

/// The number of lines a text ends is the number of its newline bytes.
pub proof fn lemma_newline_count_is_newline_bytes(bytes: Seq<u8>)
    ensures
        newline_count(bytes) == bytes.filter(|b: u8| b == NEWLINE).len(),
    decreases bytes.len(),
{
    if bytes.len() > 0 {
        let init = bytes.drop_last();
        lemma_newline_count_is_newline_bytes(init);
        assert(init.push(bytes.last()) =~= bytes);
        init.lemma_filter_push(bytes.last(), |b: u8| b == NEWLINE);
    }
}

/// A read that finds data reports the rate of all its newline bytes: half
/// their number, or 1 for a single line, for any count that fits the read;
/// and it leaves the count of empty reads alone.
pub proof fn lemma_read_reports_rate_of_newlines(empty_reads: nat, data: Seq<u8>)
    requires
        0 < data.len() <= u32::MAX,
    ensures
        ({
            let c = data.filter(|b: u8| b == NEWLINE).len();
            watch_step(empty_reads, WatchInput::Read(data)) == (
                empty_reads,
                WatchAction::Report(
                    if c == 1 {
                        1u32
                    } else {
                        (c / 2) as u32
                    },
                ),
            )
        }),
{
    lemma_newline_count_is_newline_bytes(data);
    lemma_newline_count_bound(data);
}

/// The owner's requests are obeyed whatever the watcher had counted: a stop
/// request stops it, and after every reopen the count of empty reads starts
/// from 0; an empty read short of the limit only counts one more.
pub proof fn lemma_control_and_reopen(empty_reads: nat, input: WatchInput)
    requires
        empty_reads < EMPTY_READS_BEFORE_REOPEN,
    ensures
        watch_step(empty_reads, WatchInput::Control(true)).1 == WatchAction::Exit,
        watch_step(empty_reads, input).1 is Reopen || watch_step(empty_reads, input).1 is ReportThenReopen
            ==> watch_step(empty_reads, input).0 == 0,
        empty_reads + 1 < EMPTY_READS_BEFORE_REOPEN ==> watch_step(
            empty_reads,
            WatchInput::Read(Seq::<u8>::empty()),
        ) == ((empty_reads + 1) as nat, WatchAction::Report(0)),
{
}

} // verus!
