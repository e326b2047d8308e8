//! The control protocol: the instruction set of the network endpoint, the
//! fixed result texts, and the request body the control client sends.
//!
//! The endpoint accepts a request carrying two strings, an instruction and
//! a target worker name, and answers with a plain-text result. The
//! network transport and the parsing of inbound requests are outside this
//! crate; the instruction dispatch and the framing of outbound request
//! bodies are decided here.

use vstd::prelude::*;
use crate::text::hex_digit_char;
use crate::text::hex_digit_str;
use crate::text::str_eq;

verus! {

/// A recognized control instruction, or `Unknown` for anything else.
#[derive(Clone, Copy, Debug, PartialEq, Eq, Structural)]
pub enum Instruction {
    /// `start_client`: launch the named worker.
    Start,
    /// `pause_client`: ask the named worker to pause.
    Pause,
    /// `stop_client`: ask the named worker to stop.
    Stop,
    /// `stop_client_now`: ask the named worker to quit at once.
    StopNow,
    /// `get_client_status`: report the named worker's liveness.
    Status,
    /// Any other instruction string: answered with the fixed unknown
    /// result, and the registry is not consulted or changed.
    Unknown,
}

/// The instruction an inbound string maps to; everything outside the five
/// recognized strings is `Unknown`.
pub open spec fn instruction_of(s: Seq<char>) -> Instruction {
    if s == "start_client"@ {
        Instruction::Start
    } else if s == "pause_client"@ {
        Instruction::Pause
    } else if s == "stop_client"@ {
        Instruction::Stop
    } else if s == "stop_client_now"@ {
        Instruction::StopNow
    } else if s == "get_client_status"@ {
        Instruction::Status
    } else {
        Instruction::Unknown
    }
}

/// Maps an inbound instruction string to its instruction.
pub fn parse_instruction(s: &str) -> (i: Instruction)
    ensures
        i == instruction_of(s@),
{
    if str_eq(s, "start_client") {
        Instruction::Start
    } else if str_eq(s, "pause_client") {
        Instruction::Pause
    } else if str_eq(s, "stop_client") {
        Instruction::Stop
    } else if str_eq(s, "stop_client_now") {
        Instruction::StopNow
    } else if str_eq(s, "get_client_status") {
        Instruction::Status
    } else {
        Instruction::Unknown
    }
}

/// The wire name of each recognized instruction, as the control client
/// sends it.
pub open spec fn instruction_name_text(i: Instruction) -> Seq<char>
    recommends
        i != Instruction::Unknown,
{
    match i {
        Instruction::Start => "start_client"@,
        Instruction::Pause => "pause_client"@,
        Instruction::Stop => "stop_client"@,
        Instruction::StopNow => "stop_client_now"@,
        Instruction::Status => "get_client_status"@,
        Instruction::Unknown => Seq::empty(),
    }
}

impl Instruction {
    /// The wire name this instruction is sent as. Round trip: parsing the
    /// name of any recognized instruction yields that instruction again.
    pub fn name(&self) -> (r: &'static str)
        requires
            *self != Instruction::Unknown,
        ensures
            r@ == instruction_name_text(*self),
            instruction_of(r@) == *self,
    {
        proof {
            reveal_strlit("start_client");
            reveal_strlit("pause_client");
            reveal_strlit("stop_client");
            reveal_strlit("stop_client_now");
            reveal_strlit("get_client_status");
            assert("pause_client"@ != "start_client"@) by {
                if "pause_client"@ == "start_client"@ {
                    assert("pause_client"@[0] == "start_client"@[0]);
                }
            }
            assert("stop_client"@ != "start_client"@) by {
                assert("stop_client"@.len() != "start_client"@.len());
            }
            assert("stop_client"@ != "pause_client"@) by {
                assert("stop_client"@.len() != "pause_client"@.len());
            }
            assert("stop_client_now"@ != "start_client"@) by {
                assert("stop_client_now"@.len() != "start_client"@.len());
            }
            assert("stop_client_now"@ != "pause_client"@) by {
                assert("stop_client_now"@.len() != "pause_client"@.len());
            }
            assert("stop_client_now"@ != "stop_client"@) by {
                assert("stop_client_now"@.len() != "stop_client"@.len());
            }
            assert("get_client_status"@ != "start_client"@) by {
                assert("get_client_status"@.len() != "start_client"@.len());
            }
            assert("get_client_status"@ != "pause_client"@) by {
                assert("get_client_status"@.len() != "pause_client"@.len());
            }
            assert("get_client_status"@ != "stop_client"@) by {
                assert("get_client_status"@.len() != "stop_client"@.len());
            }
            assert("get_client_status"@ != "stop_client_now"@) by {
                assert("get_client_status"@.len() != "stop_client_now"@.len());
            }
        }
        match self {
            Instruction::Start => "start_client",
            Instruction::Pause => "pause_client",
            Instruction::Stop => "stop_client",
            Instruction::StopNow => "stop_client_now",
            Instruction::Status => "get_client_status",
            Instruction::Unknown => unreached(),
        }
    }
}

/// The fixed result for an unrecognized instruction.
pub open spec fn unknown_text() -> Seq<char> {
    "Unknown instruction, are you sure the client and server versions match?"@
}

/// Builds [`unknown_text`].
pub fn unknown_instruction_message() -> (m: String)
    ensures
        m@ == unknown_text(),
{
    String::from_str("Unknown instruction, are you sure the client and server versions match?")
}

/// The result for a status query, reporting the placeholder.
pub open spec fn status_text(name: Seq<char>) -> Seq<char> {
    "Status of: "@ + name + " (This doesnt work yet)"@
}

/// Builds [`status_text`].
pub fn status_message(name: &str) -> (m: String)
    ensures
        m@ == status_text(name@),
{
    let mut m = String::from_str("Status of: ");
    m.append(name);
    m.append(" (This doesnt work yet)");
    m
}

/// What the operator is told when the daemon cannot be reached: a
/// distinct condition, not a failure result relayed from the daemon.
pub open spec fn cannot_connect_text() -> Seq<char> {
    "Cannot connect to the daemon, are you sure its running?"@
}

/// Builds [`cannot_connect_text`].
pub fn cannot_connect_message() -> (m: String)
    ensures
        m@ == cannot_connect_text(),
{
    String::from_str("Cannot connect to the daemon, are you sure its running?")
}

/// How one character appears inside a JSON string literal: quote and
/// backslash escaped, the named control characters by letter, any other
/// control character as a `\u00` escape, everything else as itself.
pub open spec fn escape_char(c: char) -> Seq<char> {
    if c == '"' {
        seq!['\\', '"']
    } else if c == '\\' {
        seq!['\\', '\\']
    } else if c == '\n' {
        seq!['\\', 'n']
    } else if c == '\r' {
        seq!['\\', 'r']
    } else if c == '\t' {
        seq!['\\', 't']
    } else if (c as u32) == 8 {
        seq!['\\', 'b']
    } else if (c as u32) == 12 {
        seq!['\\', 'f']
    } else if (c as u32) < 32 {
        seq!['\\', 'u', '0', '0', hex_digit_char(((c as u32) / 16) as nat), hex_digit_char(
            ((c as u32) % 16) as nat,
        )]
    } else {
        seq![c]
    }
}

/// A string's characters inside a JSON string literal, in order.
pub open spec fn escape_of(s: Seq<char>) -> Seq<char>
    decreases s.len(),
{
    if s.len() == 0 {
        Seq::empty()
    } else {
        escape_char(s[0]) + escape_of(s.drop_first())
    }
}

/// The body the control client sends: a JSON object with the instruction
/// and the target worker name.
pub open spec fn request_text(instruction: Seq<char>, client: Seq<char>) -> Seq<char> {
    "{\"instruction\":\""@ + escape_of(instruction) + "\",\"client\":\""@ + escape_of(client)
        + "\"}"@
}

/// Appends the JSON escape of the character of `s` at `i` to `out`.
fn append_escaped(out: &mut String, s: &str, i: usize)
    requires
        i < s@.len(),
        i < usize::MAX,
    ensures
        final(out)@ == old(out)@ + escape_char(s@[i as int]),
{
    let c = s.get_char(i);
    if c == '"' {
        proof {
            reveal_strlit("\\\"");
        }
        out.append("\\\"");
    } else if c == '\\' {
        proof {
            reveal_strlit("\\\\");
        }
        out.append("\\\\");
    } else if c == '\n' {
        proof {
            reveal_strlit("\\n");
        }
        out.append("\\n");
    } else if c == '\r' {
        proof {
            reveal_strlit("\\r");
        }
        out.append("\\r");
    } else if c == '\t' {
        proof {
            reveal_strlit("\\t");
        }
        out.append("\\t");
    } else if (c as u32) == 8 {
        proof {
            reveal_strlit("\\b");
        }
        out.append("\\b");
    } else if (c as u32) == 12 {
        proof {
            reveal_strlit("\\f");
        }
        out.append("\\f");
    } else if (c as u32) < 32 {
        proof {
            reveal_strlit("\\u00");
        }
        let d = c as u32;
        out.append("\\u00");
        out.append(hex_digit_str((d / 16) as u64));
        out.append(hex_digit_str((d % 16) as u64));
        proof {
            assert(out@ =~= old(out)@ + escape_char(s@[i as int]));
        }
    } else {
        let piece = s.substring_char(i, i + 1);
        proof {
            assert(piece@ =~= seq![s@[i as int]]);
        }
        out.append(piece);
    }
}

/// Appends the JSON escape of the whole of `s` to `out`.
fn append_escape_of(out: &mut String, s: &str)
    ensures
        final(out)@ == old(out)@ + escape_of(s@),
{
    let n = s.unicode_len();
    let mut i: usize = 0;
    proof {
        assert(old(out)@ + escape_of(s@.take(0)) =~= old(out)@);
    }
    while i < n
        invariant
            i <= n,
            n == s@.len(),
            out@ == old(out)@ + escape_of(s@.take(i as int)),
        decreases n - i,
    {
        append_escaped(out, s, i);
        proof {
            lemma_escape_of_snoc(s@, i as int);
            assert(out@ =~= old(out)@ + escape_of(s@.take(i + 1)));
        }
        i = i + 1;
    }
    proof {
        assert(s@.take(n as int) =~= s@);
    }
}

/// Escaping one more character appends that character's escape.
proof fn lemma_escape_of_snoc(s: Seq<char>, i: int)
    requires
        0 <= i < s.len(),
    ensures
        escape_of(s.take(i + 1)) == escape_of(s.take(i)) + escape_char(s[i]),
    decreases i,
{
    if i == 0 {
        assert(s.take(1) =~= seq![s[0]]);
        assert(s.take(1).drop_first() =~= Seq::<char>::empty());
        assert(s.take(0) =~= Seq::<char>::empty());
        assert(escape_of(Seq::<char>::empty()) == Seq::<char>::empty());
        assert(escape_of(s.take(1)) =~= escape_char(s[0]));
        assert(escape_of(s.take(0)) + escape_char(s[0]) =~= escape_char(s[0]));
    } else {
        lemma_escape_of_snoc(s.drop_first(), i - 1);
        assert(s.take(i + 1).drop_first() =~= s.drop_first().take(i));
        assert(s.take(i).drop_first() =~= s.drop_first().take(i - 1));
        assert(s.drop_first()[i - 1] == s[i]);
        assert(escape_of(s.take(i + 1)) == escape_char(s[0]) + escape_of(s.drop_first().take(i)));
        assert(escape_of(s.take(i)) == escape_char(s[0]) + escape_of(
            s.drop_first().take(i - 1),
        ));
        assert(escape_char(s[0]) + (escape_of(s.drop_first().take(i - 1)) + escape_char(s[i]))
            =~= (escape_char(s[0]) + escape_of(s.drop_first().take(i - 1))) + escape_char(s[i]));
    }
}

/// Frames the request body the control client sends; see [`request_text`].
pub fn encode_request(instruction: &str, client: &str) -> (r: String)
    ensures
        r@ == request_text(instruction@, client@),
{
    let mut r = String::from_str("{\"instruction\":\"");
    append_escape_of(&mut r, instruction);
    r.append("\",\"client\":\"");
    append_escape_of(&mut r, client);
    r.append("\"}");
    r
}

} // verus!
