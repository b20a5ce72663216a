//! Capture of the child's stderr in the proxy's log.
//!
//! Stderr is the logging channel of a stdio MCP server. The proxy captures it, so that
//! what the child reports, crash output included, lands in the structured log under
//! the child's process id and the session id, and sessions do not interleave.

use vstd::prelude::*;

use crate::once::OnceCell;
use crate::session::{label_of, session_label};

verus! {

/// Log target of the lines that a child wrote to stderr.
///
/// It is a word of its own, so that operators can filter or re-level child output
/// independently, for example with `RUST_LOG=info,child_stderr=off`.
pub const CHILD_STDERR_TARGET: &'static str = "child_stderr";

/// What an attempt to read the next line of a child's stderr gave.
pub enum LineRead {
    /// A line, without its end.
    Line(String),
    /// The end of the stream.
    Eof,
    /// A failure, such as text that is not UTF-8, in words.
    Failed(String),
}

/// What to do about a read.
pub enum StderrAction {
    /// Log a line at the info level, under `CHILD_STDERR_TARGET`, and read on.
    Log {
        /// The child's process id, where the platform tells.
        pid: Option<u32>,
        /// How the log calls the session.
        session_id: String,
        /// What the child wrote.
        line: String,
    },
    /// Warn that the stream failed, and read no more.
    Warn {
        /// The child's process id, where the platform tells.
        pid: Option<u32>,
        /// What went wrong.
        error: String,
    },
    /// Read no more.
    Stop,
}

/// What a `StderrAction` says, as mathematical values.
pub enum StderrActionModel {
    Log { pid: Option<u32>, session_id: Seq<char>, line: Seq<char> },
    Warn { pid: Option<u32>, error: Seq<char> },
    Stop,
}

impl View for StderrAction {
    type V = StderrActionModel;

    open spec fn view(&self) -> StderrActionModel {
        match *self {
            StderrAction::Log { pid, session_id, line } => StderrActionModel::Log {
                pid,
                session_id: session_id@,
                line: line@,
            },
            StderrAction::Warn { pid, error } => StderrActionModel::Warn { pid, error: error@ },
            StderrAction::Stop => StderrActionModel::Stop,
        }
    }
}

/// The progress of one capture.
pub struct StderrLog {
    /// The child's process id, where the platform tells.
    pub pid: Option<u32>,
    /// The number of lines that were logged.
    pub logged: u64,
    /// Whether there may be more to read.
    pub open: bool,
}

/// The progress of one capture, as mathematical values.
pub struct StderrModel {
    pub pid: Option<u32>,
    pub logged: nat,
    pub open: bool,
}

impl View for StderrLog {
    type V = StderrModel;

    open spec fn view(&self) -> StderrModel {
        StderrModel { pid: self.pid, logged: self.logged as nat, open: self.open }
    }
}

impl StderrLog {
    /// A capture that has read nothing yet.
    pub fn new(pid: Option<u32>) -> (log: StderrLog)
        ensures
            log@ == fresh_capture(pid),
            log.pid == pid,
            log.logged == 0,
            log.open,
    {
        StderrLog { pid, logged: 0, open: true }
    }
}

/// A capture that has read nothing yet.
pub open spec fn fresh_capture(pid: Option<u32>) -> StderrModel {
    StderrModel { pid, logged: 0, open: true }
}

/// The capture after one read.
pub open spec fn after_read(log: StderrModel, read: LineRead) -> StderrModel {
    if !log.open {
        log
    } else if read is Line {
        StderrModel { logged: log.logged + 1, ..log }
    } else {
        StderrModel { open: false, ..log }
    }
}

/// What to do about one read, when the session has this label.
pub open spec fn read_action(
    log: StderrModel,
    read: LineRead,
    label: Seq<char>,
) -> StderrActionModel {
    if !log.open {
        StderrActionModel::Stop
    } else {
        match read {
            LineRead::Line(line) => StderrActionModel::Log {
                pid: log.pid,
                session_id: label,
                line: line@,
            },
            LineRead::Eof => StderrActionModel::Stop,
            LineRead::Failed(error) => StderrActionModel::Warn { pid: log.pid, error: error@ },
        }
    }
}

/// Takes one read of a child's stderr: a line is counted and logged; the end of the
/// stream, or a failure, which is warned of, ends the capture.
///
/// The session id is looked up for each line, because a child can write before the
/// first request after `initialize` tells the id.
pub fn log_stderr(log: &mut StderrLog, read: LineRead, session_id: &OnceCell<String>) -> (action:
    StderrAction)
    requires
        old(log).open && read is Line ==> old(log).logged < u64::MAX,
    ensures
        final(log)@ == after_read(old(log)@, read),
        action@ == read_action(old(log)@, read, label_of(session_id@)),
        final(log).pid == old(log).pid,
        !old(log).open ==> action is Stop && *final(log) == *old(log),
        old(log).open ==> match read {
            LineRead::Line(line) => {
                &&& final(log).open
                &&& final(log).logged == old(log).logged + 1
                &&& action is Log
                &&& action->Log_pid == old(log).pid
                &&& action->Log_line@ == line@
                &&& session_id@ is Some ==> action->Log_session_id@ == session_id@->0@
                &&& session_id@ is None ==> action->Log_session_id@ == "<unknown>"@
            },
            LineRead::Eof => {
                &&& !final(log).open
                &&& final(log).logged == old(log).logged
                &&& action is Stop
            },
            LineRead::Failed(error) => {
                &&& !final(log).open
                &&& final(log).logged == old(log).logged
                &&& action is Warn
                &&& action->Warn_pid == old(log).pid
                &&& action->Warn_error@ == error@
            },
        },
{
    if !log.open {
        return StderrAction::Stop;
    }
    match read {
        LineRead::Line(line) => {
            log.logged = log.logged + 1;
            StderrAction::Log { pid: log.pid, session_id: session_label(session_id), line }
        },
        LineRead::Eof => {
            log.open = false;
            StderrAction::Stop
        },
        LineRead::Failed(error) => {
            log.open = false;
            StderrAction::Warn { pid: log.pid, error }
        },
    }
}

/// The capture after a number of reads.
pub open spec fn after_reads(log: StderrModel, reads: Seq<LineRead>) -> StderrModel
    decreases reads.len(),
{
    if reads.len() == 0 {
        log
    } else {
        after_read(after_reads(log, reads.drop_last()), reads.last())
    }
}

/// What to do about a number of reads, when the session has these labels at the time
/// of each.
pub open spec fn read_actions(
    log: StderrModel,
    reads: Seq<LineRead>,
    labels: Seq<Seq<char>>,
) -> Seq<StderrActionModel>
    decreases reads.len(),
{
    if reads.len() == 0 {
        Seq::empty()
    } else {
        read_actions(log, reads.drop_last(), labels).push(
            read_action(
                after_reads(log, reads.drop_last()),
                reads.last(),
                labels[reads.len() - 1],
            ),
        )
    }
}

/// A capture logs exactly the lines ahead of the end of the stream or of the first
/// failure: each once, in order, under the child's process id and the label that the
/// session had at that time. Their number is the count, and nothing is logged or
/// warned of from then on.
pub proof fn law_leading_lines_are_logged(
    pid: Option<u32>,
    reads: Seq<LineRead>,
    labels: Seq<Seq<char>>,
    lines: int,
)
    requires
        0 <= lines <= reads.len(),
        labels.len() == reads.len(),
        forall|i: int| 0 <= i < lines ==> #[trigger] reads[i] is Line,
        lines < reads.len() ==> !(reads[lines] is Line),
    ensures
        after_reads(fresh_capture(pid), reads).logged == lines,
        after_reads(fresh_capture(pid), reads).open <==> lines == reads.len(),
        after_reads(fresh_capture(pid), reads).pid == pid,
        read_actions(fresh_capture(pid), reads, labels).len() == reads.len(),
        forall|i: int|
            0 <= i < lines ==> #[trigger] read_actions(fresh_capture(pid), reads, labels)[i]
                == (StderrActionModel::Log { pid, session_id: labels[i], line: reads[i]->Line_0@ }),
        lines < reads.len() && reads[lines] is Eof ==> read_actions(
            fresh_capture(pid),
            reads,
            labels,
        )[lines] == StderrActionModel::Stop,
        lines < reads.len() && reads[lines] is Failed ==> read_actions(
            fresh_capture(pid),
            reads,
            labels,
        )[lines] == (StderrActionModel::Warn { pid, error: reads[lines]->Failed_0@ }),
        forall|i: int|
            lines < i < reads.len() ==> #[trigger] read_actions(fresh_capture(pid), reads, labels)[i]
                == StderrActionModel::Stop,
    decreases reads.len(),
{
    if reads.len() > 0 {
        let before = reads.drop_last();
        let ahead = if lines == reads.len() {
            lines - 1
        } else {
            lines
        };
        law_leading_lines_are_logged(pid, before, labels.drop_last(), ahead);
        lemma_later_labels_do_not_matter(fresh_capture(pid), before, labels.drop_last(), labels);
    }
}

/// What a line is logged with: its text as it is, the child's process id, and the id of
/// the session, whatever it is, or the word for unknown where there is none; the line is
/// counted once. A failure is warned of with its error as it is, and neither it nor the
/// end of the stream is counted.
pub proof fn law_line_is_logged_as_it_is(
    pid: Option<u32>,
    logged: nat,
    line: String,
    session_id: Option<String>,
    error: String,
)
    ensures
        ({
            let capture = StderrModel { pid, logged, open: true };
            let read = LineRead::Line(line);
            let label = label_of(session_id);
            &&& read_action(capture, read, label) is Log
            &&& read_action(capture, read, label)->Log_pid == pid
            &&& read_action(capture, read, label)->Log_line == line@
            &&& session_id is Some ==> read_action(capture, read, label)->Log_session_id
                == session_id->0@
            &&& session_id is None ==> read_action(capture, read, label)->Log_session_id
                == "<unknown>"@
            &&& after_read(capture, read).logged == logged + 1
            &&& after_read(capture, read).open
            &&& read_action(capture, LineRead::Failed(error), label) is Warn
            &&& read_action(capture, LineRead::Failed(error), label)->Warn_pid == pid
            &&& read_action(capture, LineRead::Failed(error), label)->Warn_error == error@
            &&& after_read(capture, LineRead::Failed(error)).logged == logged
            &&& after_read(capture, LineRead::Eof).logged == logged
            &&& read_action(capture, LineRead::Eof, label) is Stop
        }),
{
}

/// The models of a capture and of an action say what their fields hold.
pub proof fn law_capture_models_say_what_the_fields_hold(log: StderrLog, action: StderrAction)
    ensures
        log@.pid == log.pid,
        log@.logged == log.logged,
        log@.open == log.open,
        action is Stop <==> action@ is Stop,
        action is Log <==> action@ is Log,
        action is Log ==> {
            &&& action@->Log_pid == action->Log_pid
            &&& action@->Log_session_id == action->Log_session_id@
            &&& action@->Log_line == action->Log_line@
        },
        action is Warn <==> action@ is Warn,
        action is Warn ==> action@->Warn_pid == action->Warn_pid && action@->Warn_error
            == action->Warn_error@,
{
}

/// Counts add up: a stream whose reads are lines, followed by another stream, counts the
/// lines of both.
pub proof fn law_counts_add_up(pid: Option<u32>, lines: Seq<LineRead>, rest: Seq<LineRead>)
    requires
        forall|i: int| 0 <= i < lines.len() ==> #[trigger] lines[i] is Line,
    ensures
        after_reads(fresh_capture(pid), lines + rest).logged == after_reads(
            fresh_capture(pid),
            lines,
        ).logged + after_reads(fresh_capture(pid), rest).logged,
        after_reads(fresh_capture(pid), lines + rest).open == after_reads(
            fresh_capture(pid),
            rest,
        ).open,
    decreases rest.len(),
{
    if rest.len() == 0 {
        assert(lines + rest =~= lines);
        lemma_lines_keep_it_open(pid, lines);
    } else {
        assert((lines + rest).drop_last() =~= lines + rest.drop_last());
        law_counts_add_up(pid, lines, rest.drop_last());
    }
}

/// What comes after the end of the stream, or after a failure, such as a line that is
/// not UTF-8, changes nothing.
pub proof fn law_nothing_counts_after_the_end(
    pid: Option<u32>,
    reads: Seq<LineRead>,
    end: int,
    rest: Seq<LineRead>,
)
    requires
        0 <= end < reads.len(),
        !(reads[end] is Line),
    ensures
        after_reads(fresh_capture(pid), reads + rest) == after_reads(fresh_capture(pid), reads),
    decreases rest.len(),
{
    if rest.len() == 0 {
        assert(reads + rest =~= reads);
    } else {
        assert((reads + rest).drop_last() =~= reads + rest.drop_last());
        law_nothing_counts_after_the_end(pid, reads, end, rest.drop_last());
        lemma_end_closes(pid, reads, end);
    }
}

/// Lines do not end a capture.
proof fn lemma_lines_keep_it_open(pid: Option<u32>, lines: Seq<LineRead>)
    requires
        forall|i: int| 0 <= i < lines.len() ==> #[trigger] lines[i] is Line,
    ensures
        after_reads(fresh_capture(pid), lines).open,
    decreases lines.len(),
{
    if lines.len() > 0 {
        lemma_lines_keep_it_open(pid, lines.drop_last());
    }
}

/// A read that is no line ends a capture.
proof fn lemma_end_closes(pid: Option<u32>, reads: Seq<LineRead>, end: int)
    requires
        0 <= end < reads.len(),
        !(reads[end] is Line),
    ensures
        !after_reads(fresh_capture(pid), reads).open,
    decreases reads.len(),
{
    if end < reads.len() - 1 {
        lemma_end_closes(pid, reads.drop_last(), end);
    }
}

/// What is done about reads depends on the labels at their time alone.
proof fn lemma_later_labels_do_not_matter(
    log: StderrModel,
    reads: Seq<LineRead>,
    labels: Seq<Seq<char>>,
    others: Seq<Seq<char>>,
)
    requires
        reads.len() <= labels.len(),
        reads.len() <= others.len(),
        forall|i: int| 0 <= i < reads.len() ==> labels[i] == #[trigger] others[i],
    ensures
        read_actions(log, reads, labels) == read_actions(log, reads, others),
    decreases reads.len(),
{
    if reads.len() > 0 {
        lemma_later_labels_do_not_matter(log, reads.drop_last(), labels, others);
        assert(labels[reads.len() - 1] == others[reads.len() - 1]);
    }
}

} // verus!
