//! The command channel's closed set of advisory commands and their exact
//! wire encoding.
//!
//! A command is delivered to a running worker as one short, newline
//! terminated text line written to the worker's standard input. The channel
//! is one-directional and best-effort: the worker is trusted to interpret
//! the line, and the only feedback is whether the local write succeeded.

use vstd::prelude::*;

verus! {

/// An advisory command for a running worker.
#[derive(Clone, Copy, Debug, PartialEq, Eq, Structural)]
pub enum Command {
    /// Ask the worker to pause rendering.
    Pause,
    /// Ask the worker to stop after the current frame.
    Stop,
    /// Ask the worker to quit immediately.
    StopNow,
}

/// The exact byte sequence delivered for each command.
pub open spec fn wire_of(c: Command) -> Seq<u8> {
    match c {
        Command::Pause => seq![112u8, 97u8, 117u8, 115u8, 101u8, 10u8],  // "pause\n"
        Command::Stop => seq![115u8, 116u8, 111u8, 112u8, 10u8],  // "stop\n"
        Command::StopNow => seq![113u8, 117u8, 105u8, 116u8, 10u8],  // "quit\n"
    }
}

/// The word a command is written as, without the terminating newline.
pub open spec fn label_of(c: Command) -> Seq<char> {
    match c {
        Command::Pause => "pause"@,
        Command::Stop => "stop"@,
        Command::StopNow => "quit"@,
    }
}

impl Command {
    /// The bytes to write to the worker's standard input for this command:
    /// `pause\n`, `stop\n` or `quit\n`.
    pub fn wire_bytes(&self) -> (r: Vec<u8>)
        ensures
            r@ == wire_of(*self),
    {
        let mut r: Vec<u8> = Vec::new();
        match self {
            Command::Pause => {
                r.push(112);
                r.push(97);
                r.push(117);
                r.push(115);
                r.push(101);
                r.push(10);
            },
            Command::Stop => {
                r.push(115);
                r.push(116);
                r.push(111);
                r.push(112);
                r.push(10);
            },
            Command::StopNow => {
                r.push(113);
                r.push(117);
                r.push(105);
                r.push(116);
                r.push(10);
            },
        }
        proof {
            assert(r@ =~= wire_of(*self));
        }
        r
    }

    /// The command's word, used in delivery reports.
    pub fn label(&self) -> (r: &'static str)
        ensures
            r@ == label_of(*self),
    {
        match self {
            Command::Pause => "pause",
            Command::Stop => "stop",
            Command::StopNow => "quit",
        }
    }
}

/// The wire encoding is the command's word followed by one newline, and
/// the three encodings are pairwise distinct: no two commands can be
/// confused on the channel.
pub proof fn lemma_wire_injective(a: Command, b: Command)
    ensures
        a != b ==> wire_of(a) != wire_of(b),
        wire_of(a).last() == 10u8,
{
    assert(wire_of(a).last() == 10u8);
    if a != b {
        assert(wire_of(a) != wire_of(b)) by {
            if wire_of(a) == wire_of(b) {
                assert(wire_of(a).len() == wire_of(b).len());
                assert(wire_of(a)[0] == wire_of(b)[0]);
            }
        }
    }
}

} // verus!
