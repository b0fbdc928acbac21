//! The session buffer and its commit loop: one `step` per event, applying the
//! accept-or-rollback policy and the buffer-management commands.

use vstd::prelude::*;

use crate::dispatch::{classify, command_of, is_meta, Command};
use crate::synth::{join_with, joined, program_text, synthesize};

verus! {

/// What one external evaluation of a synthesized program produced: the
/// captured standard output on success, or failure (the candidate program did
/// not compile or did not run to a successful exit).
#[derive(Debug, PartialEq, Eq)]
pub enum EvalOutcome {
    /// The program built and ran to a successful exit; the payload is its
    /// captured standard output.
    Success(String),
    /// The program failed to build or exited unsuccessfully.
    Failure,
}

/// One thing that happened on the session's boundary: a line was read, the
/// input source ended, or the evaluation requested by the last `Run` action
/// finished.
#[derive(Debug, PartialEq, Eq)]
pub enum Event {
    /// A full input line was read.
    Line(String),
    /// The input source was interrupted.
    Interrupted,
    /// The input source reached its end.
    EndOfInput,
    /// Reading the next line failed; the payload describes the error.
    ReadFailed(String),
    /// The external evaluation requested by the last `Run` action finished.
    Evaluated(EvalOutcome),
}

/// What the surrounding loop must do next.
#[derive(Debug, PartialEq, Eq)]
pub enum Action {
    /// Nothing to print; read the next line.
    Silent,
    /// Print the text, then read the next line.
    Show(String),
    /// Write the payload to the program file, run the external evaluator on
    /// it, and hand the result back as an `Evaluated` event.
    Run(String),
    /// Print the text, then end the session.
    ShowAndQuit(String),
    /// End the session.
    Quit,
}

/// The static list of recognized commands, printed on request.
pub open spec fn help_text() -> Seq<char> {
    "Available commands:\n:h | :help      - print this help message\n:exit | CTRL-D  - exit\n:buffer         - show the buffer\n:clear          - clear the buffer, starting over\n:pop            - remove the last successful line from the buffer"@
}

/// The committed buffer after one input line is processed, before any
/// evaluation outcome arrives: an ordinary statement is appended tentatively;
/// a meta-command mutates the buffer directly.
pub open spec fn buffer_after_line(buf: Seq<Seq<char>>, line: Seq<char>) -> Seq<Seq<char>> {
    if !is_meta(line) {
        buf.push(line)
    } else {
        match command_of(line) {
            Command::Clear => Seq::empty(),
            Command::Pop => if buf.len() > 0 {
                buf.drop_last()
            } else {
                buf
            },
            _ => buf,
        }
    }
}

/// The committed buffer once the evaluation outcome for the tentative last
/// statement arrives: kept on success, rolled back on failure.
pub open spec fn buffer_after_outcome(buf: Seq<Seq<char>>, success: bool) -> Seq<Seq<char>> {
    if success {
        buf
    } else {
        buf.drop_last()
    }
}

/// The stateful core of the session: the ordered buffer of committed
/// statements and the in-memory history of raw input lines.
pub struct Session {
    buffer: Vec<String>,
    history: Vec<String>,
    evaluating: bool,
}

impl Session {
    /// The committed statements, in submission order.
    pub closed spec fn buffer_view(&self) -> Seq<Seq<char>> {
        self.buffer.deep_view()
    }

    /// Every raw input line seen so far, in order, meta-commands included.
    pub closed spec fn history_view(&self) -> Seq<Seq<char>> {
        self.history.deep_view()
    }

    /// True between a `Run` action and the `Evaluated` event answering it;
    /// the buffer's last entry is then still tentative.
    pub closed spec fn awaiting_outcome(&self) -> bool {
        self.evaluating
    }

    /// A session awaiting an evaluation outcome holds the tentative statement
    /// as its last buffer entry.
    pub open spec fn wf(&self) -> bool {
        self.awaiting_outcome() ==> self.buffer_view().len() >= 1
    }

    /// A fresh session: empty buffer, empty history, not evaluating.
    pub fn new() -> (s: Session)
        ensures
            s.wf(),
            !s.awaiting_outcome(),
            s.buffer_view() == Seq::<Seq<char>>::empty(),
            s.history_view() == Seq::<Seq<char>>::empty(),
    {
        let s = Session { buffer: Vec::new(), history: Vec::new(), evaluating: false };
        proof {
            assert(s.buffer.deep_view() =~= Seq::<Seq<char>>::empty());
            assert(s.history.deep_view() =~= Seq::<Seq<char>>::empty());
        }
        s
    }

    /// How many statements are committed.
    pub fn buffer_len(&self) -> (n: usize)
        ensures
            n == self.buffer_view().len(),
    {
        self.buffer.len()
    }

    /// The committed statement at the given position.
    pub fn buffer_line(&self, i: usize) -> (r: &String)
        requires
            i < self.buffer_view().len(),
        ensures
            r@ == self.buffer_view()[i as int],
    {
        &self.buffer[i]
    }

    /// How many raw input lines have been seen.
    pub fn history_len(&self) -> (n: usize)
        ensures
            n == self.history_view().len(),
    {
        self.history.len()
    }

    /// The raw input line at the given position of the history.
    pub fn history_line(&self, i: usize) -> (r: &String)
        requires
            i < self.history_view().len(),
        ensures
            r@ == self.history_view()[i as int],
    {
        &self.history[i]
    }

    /// The buffer's statements joined by newlines, as the show-buffer command
    /// prints them.
    pub fn buffer_text(&self) -> (r: String)
        ensures
            r@ == joined(self.buffer_view(), "\n"@),
    {
        join_with(&self.buffer, "\n")
    }

    /// One iteration of the commit loop.
    ///
    /// An ordinary statement line is appended tentatively and answered with a
    /// `Run` action carrying the synthesized candidate program; the matching
    /// `Evaluated` event then either commits the statement (success, printing
    /// the captured output) or rolls it back (failure, printing nothing).
    /// A meta-command line mutates the buffer directly and never triggers an
    /// evaluation.  End of input, an interrupt and a read failure all end the
    /// session.
    pub fn step(&mut self, event: Event) -> (a: Action)
        requires
            old(self).wf(),
            old(self).awaiting_outcome() == (event is Evaluated),
        ensures
            final(self).wf(),
            match event {
                Event::Line(line) => {
                    &&& final(self).history_view() == old(self).history_view().push(line@)
                    &&& final(self).buffer_view() == buffer_after_line(
                        old(self).buffer_view(),
                        line@,
                    )
                    &&& final(self).awaiting_outcome() == !is_meta(line@)
                    &&& (!is_meta(line@) ==> (a matches Action::Run(p) && p@ == program_text(
                        old(self).buffer_view().push(line@),
                    )))
                    &&& (is_meta(line@) ==> (match command_of(line@) {
                        Command::ShowBuffer => a matches Action::Show(t) && t@ == joined(
                            old(self).buffer_view(),
                            "\n"@,
                        ),
                        Command::Clear => a matches Action::Show(t) && t@ == "Cleared buffer"@,
                        Command::Exit => a is Quit,
                        Command::Help => a matches Action::Show(t) && t@ == help_text(),
                        Command::Pop => (if old(self).buffer_view().len() > 0 {
                            a matches Action::Show(t) && t@ == "Removed line: "@ + old(
                                self,
                            ).buffer_view().last()
                        } else {
                            a matches Action::Show(t) && t@ == "Buffer empty"@
                        }),
                        Command::Unknown => a matches Action::Show(t) && t@ == "Unknown command: "@
                            + line@,
                    }))
                },
                Event::Interrupted => {
                    &&& final(self).buffer_view() == old(self).buffer_view()
                    &&& final(self).history_view() == old(self).history_view()
                    &&& !final(self).awaiting_outcome()
                    &&& a matches Action::ShowAndQuit(t) && t@ == "CTRL-C"@
                },
                Event::EndOfInput => {
                    &&& final(self).buffer_view() == old(self).buffer_view()
                    &&& final(self).history_view() == old(self).history_view()
                    &&& !final(self).awaiting_outcome()
                    &&& a matches Action::ShowAndQuit(t) && t@ == "CTRL-D"@
                },
                Event::ReadFailed(msg) => {
                    &&& final(self).buffer_view() == old(self).buffer_view()
                    &&& final(self).history_view() == old(self).history_view()
                    &&& !final(self).awaiting_outcome()
                    &&& a matches Action::ShowAndQuit(t) && t@ == "Error: "@ + msg@
                },
                Event::Evaluated(out) => {
                    &&& final(self).history_view() == old(self).history_view()
                    &&& !final(self).awaiting_outcome()
                    &&& final(self).buffer_view() == buffer_after_outcome(
                        old(self).buffer_view(),
                        out is Success,
                    )
                    &&& (match out {
                        EvalOutcome::Success(text) => a matches Action::Show(t) && t@ == text@,
                        EvalOutcome::Failure => a is Silent,
                    })
                },
            },
    {
        let ghost pre_buffer = self.buffer.deep_view();
        let ghost pre_history = self.history.deep_view();
        match event {
            Event::Line(line) => {
                let ghost lv = line@;
                self.history.push(line.clone());
                proof {
                    assert(self.history.deep_view() =~= pre_history.push(lv));
                }
                match classify(&line) {
                    None => {
                        self.buffer.push(line);
                        self.evaluating = true;
                        proof {
                            assert(self.buffer.deep_view() =~= pre_buffer.push(lv));
                        }
                        let program = synthesize(&self.buffer);
                        Action::Run(program)
                    },
                    Some(Command::ShowBuffer) => Action::Show(join_with(&self.buffer, "\n")),
                    Some(Command::Clear) => {
                        self.buffer.clear();
                        proof {
                            assert(self.buffer.deep_view() =~= Seq::<Seq<char>>::empty());
                        }
                        Action::Show(String::from_str("Cleared buffer"))
                    },
                    Some(Command::Exit) => Action::Quit,
                    Some(Command::Help) => Action::Show(
                        String::from_str(
                            "Available commands:\n:h | :help      - print this help message\n:exit | CTRL-D  - exit\n:buffer         - show the buffer\n:clear          - clear the buffer, starting over\n:pop            - remove the last successful line from the buffer",
                        ),
                    ),
                    Some(Command::Pop) => match self.buffer.pop() {
                        Some(popped) => {
                            proof {
                                assert(self.buffer.deep_view() =~= pre_buffer.drop_last());
                                assert(popped@ == pre_buffer.last());
                            }
                            let mut notice = String::from_str("Removed line: ");
                            notice.append(popped.as_str());
                            Action::Show(notice)
                        },
                        None => Action::Show(String::from_str("Buffer empty")),
                    },
                    Some(Command::Unknown) => {
                        let mut notice = String::from_str("Unknown command: ");
                        notice.append(line.as_str());
                        Action::Show(notice)
                    },
                }
            },
            Event::Interrupted => Action::ShowAndQuit(String::from_str("CTRL-C")),
            Event::EndOfInput => Action::ShowAndQuit(String::from_str("CTRL-D")),
            Event::ReadFailed(msg) => {
                let mut notice = String::from_str("Error: ");
                notice.append(msg.as_str());
                Action::ShowAndQuit(notice)
            },
            Event::Evaluated(out) => {
                self.evaluating = false;
                match out {
                    EvalOutcome::Success(text) => Action::Show(text),
                    EvalOutcome::Failure => {
                        let _discarded = self.buffer.pop();
                        proof {
                            assert(self.buffer.deep_view() =~= pre_buffer.drop_last());
                        }
                        Action::Silent
                    },
                }
            },
        }
    }
}

/// Idempotent rollback: appending a tentative statement to the buffer and
/// rolling it back after a failed evaluation restores the buffer exactly as
/// it was before the statement was submitted.
pub proof fn lemma_rollback_restores(buf: Seq<Seq<char>>, stmt: Seq<char>)
    requires
        !is_meta(stmt),
    ensures
        buffer_after_outcome(buffer_after_line(buf, stmt), false) == buf,
{
    assert(buf.push(stmt).drop_last() =~= buf);
}

/// Monotonic commit: a submitted statement grows the buffer by exactly one
/// and a failed evaluation shrinks it by exactly one; among the
/// meta-commands, only clear and pop change the buffer's size, and pop only
/// when the buffer is non-empty.
pub proof fn lemma_monotonic_commit(buf: Seq<Seq<char>>, line: Seq<char>, success: bool)
    ensures
        !is_meta(line) ==> buffer_after_line(buf, line).len() == buf.len() + 1,
        is_meta(line) && command_of(line) is Clear ==> buffer_after_line(buf, line).len() == 0,
        is_meta(line) && command_of(line) is Pop && buf.len() > 0 ==> buffer_after_line(
            buf,
            line,
        ).len() == buf.len() - 1,
        is_meta(line) && command_of(line) is Pop && buf.len() == 0 ==> buffer_after_line(buf, line)
            == buf,
        is_meta(line) && !(command_of(line) is Clear) && !(command_of(line) is Pop)
            ==> buffer_after_line(buf, line) == buf,
        success ==> buffer_after_outcome(buf, success) == buf,
        !success && buf.len() > 0 ==> buffer_after_outcome(buf, success).len() == buf.len() - 1,
        !is_meta(line) && success ==> buffer_after_outcome(
            buffer_after_line(buf, line),
            success,
        ).len() == buf.len() + 1,
        !is_meta(line) && !success ==> buffer_after_outcome(buffer_after_line(buf, line), success)
            == buf,
{
    if !is_meta(line) && !success {
        lemma_rollback_restores(buf, line);
    }
}

/// Clear is total: after the clear command the buffer is empty, whatever it
/// held before.
pub proof fn lemma_clear_total(buf: Seq<Seq<char>>, line: Seq<char>)
    requires
        is_meta(line),
        command_of(line) is Clear,
    ensures
        buffer_after_line(buf, line).len() == 0,
{
}

/// Pop on an empty buffer is a no-op: the buffer stays empty.
pub proof fn lemma_pop_on_empty(line: Seq<char>)
    requires
        is_meta(line),
        command_of(line) is Pop,
    ensures
        buffer_after_line(Seq::<Seq<char>>::empty(), line) == Seq::<Seq<char>>::empty(),
{
}

} // verus!
