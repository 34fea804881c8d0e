//! Processes as plain data: what to start, and what came back.

use vstd::prelude::*;
use crate::text::texts;

verus! {

/// A process to start: the program, its arguments in order, the bytes to
/// feed to its standard input, and whether its standard output is collected
/// for the planner or left connected to the caller's terminal.
#[derive(Debug, PartialEq, Eq)]
pub struct Invocation {
    pub program: String,
    pub args: Vec<String>,
    pub input: Option<Vec<u8>>,
    pub capture: bool,
}

/// The mathematical content of an [`Invocation`].
pub struct InvocationView {
    pub program: Seq<char>,
    pub args: Seq<Seq<char>>,
    pub input: Option<Seq<u8>>,
    pub capture: bool,
}

impl View for Invocation {
    type V = InvocationView;

    open spec fn view(&self) -> InvocationView {
        InvocationView {
            program: self.program@,
            args: texts(self.args@),
            input: match self.input {
                Some(bytes) => Some(bytes@),
                None => None,
            },
            capture: self.capture,
        }
    }
}

/// How a started process ended. `started` is false where the program could
/// not be run at all; then the other fields carry nothing.
#[derive(Debug, PartialEq, Eq)]
pub struct ProcessReply {
    pub started: bool,
    pub success: bool,
    pub stdout: Vec<u8>,
}

/// The mathematical content of a [`ProcessReply`].
pub struct ProcessReplyView {
    pub started: bool,
    pub success: bool,
    pub stdout: Seq<u8>,
}

impl View for ProcessReply {
    type V = ProcessReplyView;

    open spec fn view(&self) -> ProcessReplyView {
        ProcessReplyView { started: self.started, success: self.success, stdout: self.stdout@ }
    }
}

impl ProcessReply {
    /// A reply for a program that could not be started.
    pub fn not_started() -> (reply: ProcessReply)
        ensures
            reply@ == (ProcessReplyView { started: false, success: false, stdout: Seq::empty() }),
    {
        ProcessReply { started: false, success: false, stdout: Vec::new() }
    }

    /// A reply for a program that ran to its end.
    pub fn exited(success: bool, stdout: Vec<u8>) -> (reply: ProcessReply)
        ensures
            reply@ == (ProcessReplyView { started: true, success, stdout: stdout@ }),
    {
        ProcessReply { started: true, success, stdout }
    }
}

} // verus!
