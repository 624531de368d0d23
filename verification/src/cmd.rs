//! The session buffer: the visible output text, the input line that is being
//! typed, the queue of events for whoever draws the session, and the process
//! that may be attached to it.
//!
//! The buffer owns the attached process but never talks to it. The program
//! that embeds the buffer reads from the process and hands what it read to
//! [`Cmd::update`]; it writes to the process what [`Cmd::flush_stdin`] tells it
//! to write.

use std::collections::VecDeque;
use vstd::prelude::*;
use vstd::string::*;

use crate::text::{keep_last, last_chars, pop_char, push_char};

verus! {

/// The number of characters of output that a session made by [`Cmd::new`]
/// retains.
pub const MAX_OUTPUT: usize = 50000;

/// By how many characters the output of a session made by [`Cmd::new`] may
/// exceed [`MAX_OUTPUT`] before it is cut back.
pub const OUTPUT_SLACK: usize = 10000;

/// A notification for the consumer of a session.
#[derive(Clone, Copy, Debug, PartialEq, Eq, Structural)]
pub enum CmdEvent {
    /// The attached process was found dead and has been detached.
    ChildExited,
    /// The output text was written to.
    StdoutChanged,
}

/// What the embedding program read from the attached process since the last
/// tick.
pub struct ChildReport {
    /// The text that the process wrote to its standard output.
    pub stdout: String,
    /// The text that the process wrote to its standard error.
    pub stderr: String,
    /// Whether the process has ended. A poll that failed counts as ended.
    pub dead: bool,
}

/// What [`Cmd::flush_stdin`] hands back.
pub struct Flushed {
    /// The input line as it was typed.
    pub line: String,
    /// Whether a process was attached when the line was flushed. The line,
    /// followed by a line terminator, is then to be written to its input.
    pub forward: bool,
}

/// A session: `P` is the handle of the process bridge that it may own.
pub struct Cmd<P> {
    child: Option<P>,
    pub events: VecDeque<CmdEvent>,
    stdout: String,
    stdin: String,
    is_running: bool,
    max_output: usize,
    slack: usize,
}

/// A session as contracts see it.
pub struct CmdView<P> {
    /// The attached process, if there is one.
    pub child: Option<P>,
    /// The events that were emitted and not drained yet, oldest first.
    pub events: Seq<CmdEvent>,
    /// The visible output text.
    pub output: Seq<char>,
    /// The input line that is being typed.
    pub input: Seq<char>,
    /// Whether the session has not been asked to exit.
    pub running: bool,
    /// The number of characters of output that a tick retains when it trims.
    pub max_output: nat,
    /// By how many characters the output may exceed `max_output` before a
    /// tick trims it.
    pub slack: nat,
}

impl<P> CmdView<P> {
    /// The session with `event` at the end of its queue.
    pub open spec fn emit(self, event: CmdEvent) -> Self {
        CmdView { events: self.events.push(event), ..self }
    }

    /// The session after `text` was written to its output.
    pub open spec fn write_stdout(self, text: Seq<char>) -> Self {
        CmdView { output: self.output + text, ..self }.emit(CmdEvent::StdoutChanged)
    }

    /// The session after the one character `c` was written to its output.
    pub open spec fn put_stdout(self, c: char) -> Self {
        CmdView { output: self.output.push(c), ..self }.emit(CmdEvent::StdoutChanged)
    }

    /// The session after `c` was typed: `c` joins the input line and is
    /// mirrored into the output.
    pub open spec fn put_stdin(self, c: char) -> Self {
        CmdView { input: self.input.push(c), ..self }.put_stdout(c)
    }

    /// The session after the last typed character was taken back: it leaves
    /// the input line, and the last character leaves the output. A session
    /// with an empty input line stays as it is.
    pub open spec fn pop_stdin(self) -> Self {
        if self.input.len() == 0 {
            self
        } else {
            CmdView {
                input: self.input.drop_last(),
                output: if self.output.len() == 0 {
                    self.output
                } else {
                    self.output.drop_last()
                },
                ..self
            }.emit(CmdEvent::StdoutChanged)
        }
    }

    /// The session after each character of `keys` was typed, in order.
    pub open spec fn typed(self, keys: Seq<char>) -> Self
        decreases keys.len(),
    {
        if keys.len() == 0 {
            self
        } else {
            self.typed(keys.drop_last()).put_stdin(keys.last())
        }
    }

    /// The session after `n` typed characters were taken back, one by one.
    pub open spec fn erased(self, n: nat) -> Self
        decreases n,
    {
        if n == 0 {
            self
        } else {
            self.pop_stdin().erased((n - 1) as nat)
        }
    }

    /// The session after `child` took the place of the attached process.
    /// Where a process was attached and none is any more, its exit is
    /// announced.
    pub open spec fn attach_child(self, child: Option<P>) -> Self {
        let replaced = CmdView { child, ..self };
        if self.child is Some && child is None {
            replaced.emit(CmdEvent::ChildExited)
        } else {
            replaced
        }
    }

    /// The session after a tick drained `report` into it: first what the
    /// process wrote to its standard output, then what it wrote to its
    /// standard error; and where the process is dead, it is detached and its
    /// exit is announced once.
    pub open spec fn drained(self, report: ChildReport) -> Self {
        let written = self.write_stdout(report.stdout@).write_stdout(report.stderr@);
        if report.dead {
            CmdView { child: None, ..written }.emit(CmdEvent::ChildExited)
        } else {
            written
        }
    }

    /// Whether the output is longer than the session lets it stay.
    pub open spec fn overlong(self) -> bool {
        self.output.len() > self.max_output + self.slack
    }

    /// The session with its output cut back to its last `max_output`
    /// characters where it was overlong, and as it is where it was not.
    pub open spec fn trimmed(self) -> Self {
        if self.overlong() {
            CmdView { output: last_chars(self.output, self.max_output), ..self }
        } else {
            self
        }
    }

    /// The session after a tick took `report` in and before it trimmed the
    /// output. A report counts only while a process is attached.
    pub open spec fn received(self, report: Option<ChildReport>) -> Self {
        match (self.child, report) {
            (Some(_), Some(r)) => self.drained(r),
            _ => self,
        }
    }

    /// The session after a tick.
    pub open spec fn update(self, report: Option<ChildReport>) -> Self {
        self.received(report).trimmed()
    }

    /// Erasing changes the output and the input line of two sessions alike
    /// if the two agree on them beforehand.
    proof fn erased_alike(self, other: Self, n: nat)
        requires
            self.output == other.output,
            self.input == other.input,
        ensures
            self.erased(n).output == other.erased(n).output,
            self.erased(n).input == other.erased(n).input,
        decreases n,
    {
        if n > 0 {
            self.pop_stdin().erased_alike(other.pop_stdin(), (n - 1) as nat);
        }
    }

    /// After any keys were typed and as many characters were taken back, the
    /// output text and the input line are what they were before.
    pub proof fn typing_then_erasing_restores(self, keys: Seq<char>)
        ensures
            self.typed(keys).erased(keys.len()).output == self.output,
            self.typed(keys).erased(keys.len()).input == self.input,
        decreases keys.len(),
    {
        if keys.len() > 0 {
            let before = self.typed(keys.drop_last());
            let after = before.put_stdin(keys.last());
            assert(after.pop_stdin().output =~= before.output);
            assert(after.pop_stdin().input =~= before.input);
            after.pop_stdin().erased_alike(before, (keys.len() - 1) as nat);
            self.typing_then_erasing_restores(keys.drop_last());
        }
    }

    /// A tick leaves at most `max_output + slack` characters of output, and
    /// what it leaves is the end of what the output held once the report was
    /// taken in.
    pub proof fn tick_bounds_output(self, report: Option<ChildReport>)
        ensures
            self.update(report).output.len() <= self.max_output + self.slack,
            self.update(report).output.is_suffix_of(self.received(report).output),
    {
        let full = self.received(report).output;
        let kept = self.update(report).output;
        if self.received(report).overlong() {
            assert(full =~= full.take(full.len() - self.max_output) + kept);
        } else {
            assert(full =~= Seq::<char>::empty() + kept);
        }
    }

    /// Once text was written that makes the output exceed
    /// `max_output + slack` characters, the next tick cuts the output back to
    /// exactly `max_output` characters: the last ones written, in the order
    /// in which they were written.
    pub proof fn tick_trims_overlong(self, text: Seq<char>, report: Option<ChildReport>)
        requires
            self.output.len() + text.len() > self.max_output + self.slack,
        ensures
            ({
                let written = self.write_stdout(text);
                let full = written.received(report).output;
                let kept = written.update(report).output;
                &&& (self.output + text).is_prefix_of(full)
                &&& kept.len() == self.max_output
                &&& kept == full.skip(full.len() - self.max_output)
            }),
    {
        let written = self.write_stdout(text);
        let full = written.received(report).output;
        match (written.child, report) {
            (Some(_), Some(r)) => {
                assert(full =~= (self.output + text) + (r.stdout@ + r.stderr@));
            },
            _ => {
                assert(full =~= (self.output + text) + Seq::<char>::empty());
            },
        }
    }

    /// A tick detaches the attached process exactly when the report says that
    /// it is dead, and it announces an exit exactly then, once, after the two
    /// writes of the report.
    pub proof fn tick_detaches_the_dead(self, report: Option<ChildReport>)
        ensures
            ({
                let after = self.update(report);
                let died = self.child is Some && report is Some && report->0.dead;
                &&& died ==> after.child is None && after.events == self.events + seq![
                    CmdEvent::StdoutChanged,
                    CmdEvent::StdoutChanged,
                    CmdEvent::ChildExited,
                ]
                &&& !died ==> after.child == self.child && !after.events.skip(
                    self.events.len() as int,
                ).contains(CmdEvent::ChildExited)
                &&& self.events.is_prefix_of(after.events)
            }),
    {
        let after = self.update(report);
        match (self.child, report) {
            (Some(_), Some(r)) => {
                let two = seq![CmdEvent::StdoutChanged, CmdEvent::StdoutChanged];
                if r.dead {
                    assert(after.events =~= self.events + seq![
                        CmdEvent::StdoutChanged,
                        CmdEvent::StdoutChanged,
                        CmdEvent::ChildExited,
                    ]);
                } else {
                    assert(after.events =~= self.events + two);
                    assert(after.events.skip(self.events.len() as int) =~= two);
                }
            },
            _ => {
                assert(after.events.skip(self.events.len() as int) =~= Seq::<CmdEvent>::empty());
                assert(after.events =~= self.events + Seq::<CmdEvent>::empty());
            },
        }
    }

    /// Whenever a session goes from holding a process to holding none, by a
    /// tick or by detaching, exactly one exit joins the end of the queue; and
    /// while it does not, neither of them announces an exit.
    pub proof fn absence_is_announced(self, report: Option<ChildReport>, child: Option<P>)
        ensures
            self.child is Some && self.update(report).child is None ==> self.update(
                report,
            ).events.last() == CmdEvent::ChildExited && self.update(report).events.drop_last()
                == self.events + seq![CmdEvent::StdoutChanged, CmdEvent::StdoutChanged],
            self.child is Some && self.attach_child(child).child is None ==> self.attach_child(
                child,
            ).events == self.events.push(CmdEvent::ChildExited),
            !(self.child is Some && self.attach_child(child).child is None) ==> self.attach_child(
                child,
            ).events == self.events,
    {
        match (self.child, report) {
            (Some(_), Some(r)) => {
                if r.dead {
                    assert(self.update(report).events.drop_last() =~= self.events + seq![
                        CmdEvent::StdoutChanged,
                        CmdEvent::StdoutChanged,
                    ]);
                }
            },
            _ => {},
        }
    }

    /// An exit is announced once. After the tick that found the process
    /// dead, the next tick announces no exit, whatever it is told.
    pub proof fn exit_is_announced_once(
        self,
        report: ChildReport,
        later: Option<ChildReport>,
    )
        requires
            self.child is Some,
            report.dead,
        ensures
            self.update(Some(report)).child is None,
            self.update(Some(report)).update(later).child is None,
            self.update(Some(report)).update(later).events == self.update(Some(report)).events,
    {
    }
}

impl<P> View for Cmd<P> {
    type V = CmdView<P>;

    closed spec fn view(&self) -> CmdView<P> {
        CmdView {
            child: self.child,
            events: self.events@,
            output: self.stdout@,
            input: self.stdin@,
            running: self.is_running,
            max_output: self.max_output as nat,
            slack: self.slack as nat,
        }
    }
}

impl<P> Cmd<P> {
    /// A running session with nothing in it, which retains [`MAX_OUTPUT`]
    /// characters of output with a slack of [`OUTPUT_SLACK`].
    pub fn new() -> (cmd: Self)
        ensures
            cmd@ == (CmdView::<P> {
                child: None,
                events: Seq::empty(),
                output: Seq::empty(),
                input: Seq::empty(),
                running: true,
                max_output: MAX_OUTPUT as nat,
                slack: OUTPUT_SLACK as nat,
            }),
    {
        Self::with_limits(MAX_OUTPUT, OUTPUT_SLACK)
    }

    /// A running session with nothing in it, which retains `max_output`
    /// characters of output with a slack of `slack`.
    pub fn with_limits(max_output: usize, slack: usize) -> (cmd: Self)
        ensures
            cmd@ == (CmdView::<P> {
                child: None,
                events: Seq::empty(),
                output: Seq::empty(),
                input: Seq::empty(),
                running: true,
                max_output: max_output as nat,
                slack: slack as nat,
            }),
    {
        Cmd {
            child: None,
            events: VecDeque::new(),
            stdout: String::new(),
            stdin: String::new(),
            is_running: true,
            max_output,
            slack,
        }
    }

    /// Tells the consumer to draw the output again though nothing was
    /// written.
    pub fn trigger_stdout_update(&mut self)
        ensures
            final(self)@ == old(self)@.emit(CmdEvent::StdoutChanged),
    {
        self.emit(CmdEvent::StdoutChanged);
    }

    fn emit(&mut self, event: CmdEvent)
        ensures
            final(self)@ == old(self)@.emit(event),
    {
        self.events.push_back(event);
    }

    /// Makes `child` the attached process, or detaches where `child` is
    /// `None`, and hands back the process that was attached before. A
    /// process that is handed back is still alive: it is the caller's to kill.
    /// Where a process was attached and none is any more, the exit is
    /// announced once.
    pub fn attach_child(&mut self, child: Option<P>) -> (previous: Option<P>)
        ensures
            previous == old(self)@.child,
            final(self)@ == old(self)@.attach_child(child),
    {
        let mut held = child;
        std::mem::swap(&mut self.child, &mut held);
        if held.is_some() && self.child.is_none() {
            self.emit(CmdEvent::ChildExited);
        }
        held
    }

    /// Lends the attached process, so that the caller can read from it, write
    /// to it or kill it.
    pub fn child_mut(&mut self) -> (child: Option<&mut P>)
        ensures
            match child {
                Some(p) => old(self)@.child == Some(*p) && final(self)@ == (CmdView {
                    child: Some(*final(p)),
                    ..old(self)@
                }),
                None => old(self)@.child is None && final(self)@ == old(self)@,
            },
    {
        self.child.as_mut()
    }

    /// Empties the event queue and returns what was in it, oldest first.
    pub fn drain_events(&mut self) -> (drained: VecDeque<CmdEvent>)
        ensures
            drained@ == old(self)@.events,
            final(self)@ == (CmdView { events: Seq::empty(), ..old(self)@ }),
    {
        let mut replace = VecDeque::new();
        std::mem::swap(&mut replace, &mut self.events);
        replace
    }

    /// Ends the session: the consumer must stop driving it.
    pub fn exit(&mut self)
        ensures
            final(self)@ == (CmdView { running: false, ..old(self)@ }),
    {
        self.is_running = false;
    }

    /// Whether the session was ended.
    pub fn is_exited(&self) -> (exited: bool)
        ensures
            exited == !self@.running,
    {
        !self.is_running
    }

    /// Takes back the last typed character.
    pub fn pop_stdin(&mut self)
        ensures
            final(self)@ == old(self)@.pop_stdin(),
    {
        if pop_char(&mut self.stdin).is_some() {
            let _ = pop_char(&mut self.stdout);
            self.emit(CmdEvent::StdoutChanged);
        }
    }

    /// Types `c`.
    pub fn put_stdin(&mut self, c: char)
        ensures
            final(self)@ == old(self)@.put_stdin(c),
    {
        push_char(&mut self.stdin, c);
        self.put_stdout(c);
    }

    /// The input line that is being typed.
    pub fn get_stdin(&self) -> (text: &str)
        ensures
            text@ == self@.input,
    {
        self.stdin.as_str()
    }

    /// The visible output text.
    pub fn get_stdout(&self) -> (text: &str)
        ensures
            text@ == self@.output,
    {
        self.stdout.as_str()
    }

    /// Whether a process is attached.
    pub fn is_handling_subprocess(&self) -> (attached: bool)
        ensures
            attached == (self@.child is Some),
    {
        self.child.is_some()
    }

    /// Empties the output text. The input line, the event queue and the
    /// attached process stay as they are.
    pub fn clear(&mut self)
        ensures
            final(self)@ == (CmdView { output: Seq::empty(), ..old(self)@ }),
    {
        self.stdout = String::new();
    }

    /// Empties the input line and returns what was in it, and says whether it
    /// is to be forwarded to the attached process.
    pub fn flush_stdin(&mut self) -> (flushed: Flushed)
        ensures
            flushed.line@ == old(self)@.input,
            flushed.forward == (old(self)@.child is Some),
            final(self)@ == (CmdView { input: Seq::empty(), ..old(self)@ }),
    {
        let forward = self.child.is_some();
        let mut line = String::new();
        std::mem::swap(&mut self.stdin, &mut line);
        Flushed { line, forward }
    }

    /// Writes the one character `c` to the output.
    pub fn put_stdout(&mut self, c: char)
        ensures
            final(self)@ == old(self)@.put_stdout(c),
    {
        push_char(&mut self.stdout, c);
        self.emit(CmdEvent::StdoutChanged);
    }

    /// Writes `s` to the output.
    pub fn write_stdout(&mut self, s: &str)
        ensures
            final(self)@ == old(self)@.write_stdout(s@),
    {
        self.stdout.append(s);
        self.emit(CmdEvent::StdoutChanged);
    }

    /// One tick. While a process is attached, `report` is drained into the
    /// output, and a dead process is detached and its exit announced. Then
    /// the output is cut back to its last `max_output` characters if it
    /// exceeds them by more than the slack.
    pub fn update(&mut self, report: Option<ChildReport>)
        ensures
            final(self)@ == old(self)@.update(report),
    {
        if self.child.is_some() {
            if let Some(r) = report {
                self.write_stdout(r.stdout.as_str());
                self.write_stdout(r.stderr.as_str());
                if r.dead {
                    self.child = None;
                    self.emit(CmdEvent::ChildExited);
                }
            }
        }
        let len = self.stdout.as_str().unicode_len();
        if len > self.max_output && len - self.max_output > self.slack {
            self.stdout = keep_last(self.stdout.as_str(), self.max_output);
        }
    }
}

} // verus!
