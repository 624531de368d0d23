//! The rules of the process bridge: what the reader of an output stream does
//! with each read, how pending output is handed over, how a line of input is
//! framed, when a process counts as dead, and how a command line is turned
//! into the process to start.
//!
//! The bridge itself holds an operating-system process and two reader
//! threads, and belongs to the program that embeds the session. It calls these
//! functions for every decision it takes.

use vstd::prelude::*;
use vstd::slice::slice_to_vec;
use vstd::string::*;

verus! {

/// What one read from an output stream of the child gave, for a buffer of one
/// byte.
pub enum ReadOutcome {
    /// The read succeeded and reported this many bytes.
    Read(usize),
    /// The read failed.
    Failed,
}

/// What a poll of the child process gave.
#[derive(Clone, Copy, Debug, PartialEq, Eq, Structural)]
pub enum Poll {
    /// The process has not ended.
    Running,
    /// The process has ended.
    Exited,
    /// The poll failed.
    Failed,
}

/// The program to start for a command line, and its arguments.
pub struct Invocation {
    pub program: String,
    pub args: Vec<String>,
}

/// Whether a read delivered a byte: it did if it succeeded and reported
/// exactly one.
pub open spec fn delivers(outcome: ReadOutcome) -> bool {
    outcome matches ReadOutcome::Read(n) && n == 1
}

impl ReadOutcome {
    /// Tells whether the read delivered a byte.
    pub fn delivers(&self) -> (r: bool)
        ensures
            r == delivers(*self),
    {
        match self {
            ReadOutcome::Read(size) => *size == 1,
            ReadOutcome::Failed => false,
        }
    }
}

/// One step of the reader of an output stream. A read that delivered a byte
/// appends `byte` to the pending output, and the reader goes on. After any
/// other read (the end of the stream, a count that cannot be, a failure) the
/// pending output stays as it is and the reader is done.
pub fn handle_byte(outcome: ReadOutcome, byte: u8, pending: &mut Vec<u8>) -> (done: bool)
    ensures
        done == !delivers(outcome),
        final(pending)@ == (if delivers(outcome) {
            old(pending)@.push(byte)
        } else {
            old(pending)@
        }),
{
    match outcome {
        ReadOutcome::Read(size) => {
            if size == 1 {
                pending.push(byte);
                return false;
            }
        },
        ReadOutcome::Failed => {},
    }
    true
}

/// Takes all pending output, in the order in which it was read, and leaves
/// none behind.
pub fn get_bytes(pending: &mut Vec<u8>) -> (delta: Vec<u8>)
    ensures
        delta@ == old(pending)@,
        final(pending)@ == Seq::<u8>::empty(),
{
    let mut delta: Vec<u8> = Vec::new();
    std::mem::swap(pending, &mut delta);
    delta
}

/// What is written to the input of the child for the line `bytes`: the bytes,
/// followed by a line feed.
pub fn stdin_frame(bytes: &[u8]) -> (frame: Vec<u8>)
    ensures
        frame@ == bytes@.push(10u8),
{
    let mut frame = slice_to_vec(bytes);
    frame.push(10u8);
    frame
}

/// Whether the process counts as dead after `poll`: it does unless the poll
/// found it running. A poll that failed counts as death.
pub fn is_dead(poll: Poll) -> (dead: bool)
    ensures
        dead == (poll != Poll::Running),
{
    match poll {
        Poll::Running => false,
        Poll::Exited => true,
        Poll::Failed => true,
    }
}

/// The process to start for the command line `cmd`: the command interpreter
/// `C:\Windows\System32\cmd.exe` with `/C` and the line on Windows, and
/// `sh` with `-c` and the line elsewhere.
pub fn subcommand(cmd: &str, windows: bool) -> (invocation: Invocation)
    ensures
        invocation.program@ == (if windows {
            "C:\\Windows\\System32\\cmd.exe"@
        } else {
            "sh"@
        }),
        invocation.args.deep_view() == seq![
            if windows {
                "/C"@
            } else {
                "-c"@
            },
            cmd@,
        ],
{
    let program = if windows {
        String::from_str("C:\\Windows\\System32\\cmd.exe")
    } else {
        String::from_str("sh")
    };
    let flag = if windows {
        String::from_str("/C")
    } else {
        String::from_str("-c")
    };
    let mut args: Vec<String> = Vec::new();
    args.push(flag);
    args.push(String::from_str(cmd));
    assert(args.deep_view() =~= seq![
        if windows {
            "/C"@
        } else {
            "-c"@
        },
        cmd@,
    ]);
    Invocation { program, args }
}

} // verus!
