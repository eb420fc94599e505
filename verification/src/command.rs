//! The diagnostic commands: which program each one runs, and what text
//! answers the request once the program has run or failed to start.

use vstd::prelude::*;
use vstd::string::*;
use vstd::utf8::*;

verus! {

/// A program and the arguments it is started with.
#[derive(Clone, Debug)]
pub struct Invocation {
    pub program: String,
    pub args: Vec<String>,
}

impl Invocation {
    /// The arguments as text, in order.
    pub open spec fn args_view(&self) -> Seq<Seq<char>> {
        Seq::new(self.args@.len(), |i: int| self.args@[i]@)
    }
}

/// What became of a program that was started and waited for.
#[derive(Debug)]
pub enum RunOutcome {
    /// The program could not be started.
    SpawnFailed,
    /// The program ran to its end; its standard output, as bytes.
    Finished(Vec<u8>),
}

/// The text that answers a request after `outcome`: the program's output
/// where it is UTF-8, and a fixed message for each of the two failures.
pub open spec fn response_text(outcome: RunOutcome) -> Seq<char> {
    match outcome {
        RunOutcome::SpawnFailed => "Failed to execute command!"@,
        RunOutcome::Finished(bytes) => if valid_utf8(bytes@) {
            decode_utf8(bytes@)
        } else {
            "Request timeout"@
        },
    }
}

/// `String::from_utf8`: the bytes decoded as UTF-8, or nothing where they
/// are not valid UTF-8.
#[verifier::external_body]
pub(crate) fn decode_text(bytes: Vec<u8>) -> (r: Option<String>)
    ensures
        r is Some <==> valid_utf8(bytes@),
        r is Some ==> r.unwrap()@ == decode_utf8(bytes@),
{
    match String::from_utf8(bytes) {
        Ok(text) => Some(text),
        Err(_) => None,
    }
}

/// The answer to a diagnostic request, given what became of its program.
/// Never fails: a program that did not start and output that is not text
/// each have their own fixed answer.
pub fn exec(outcome: RunOutcome) -> (r: String)
    ensures
        r@ == response_text(outcome),
{
    match outcome {
        RunOutcome::SpawnFailed => String::from_str("Failed to execute command!"),
        RunOutcome::Finished(bytes) => match decode_text(bytes) {
            Some(text) => text,
            None => String::from_str("Request timeout"),
        },
    }
}

/// The status of an answer that was given.
pub const STATUS_OK: u16 = 200;

/// An answer to a request: its HTTP status and its body.
#[derive(Debug)]
pub struct Reply {
    pub status: u16,
    pub body: String,
}

/// The reply to a diagnostic request, given what became of its program:
/// always a success, with the text of `exec` as its body.
pub fn respond(outcome: RunOutcome) -> (r: Reply)
    ensures
        r.status == STATUS_OK,
        r.body@ == response_text(outcome),
{
    Reply { status: STATUS_OK, body: exec(outcome) }
}

/// Lists the network interfaces: `ip addr`.
pub fn ip_addr() -> (r: Invocation)
    ensures
        r.program@ == "ip"@,
        r.args_view() == seq!["addr"@],
{
    let mut args: Vec<String> = Vec::new();
    args.push(String::from_str("addr"));
    let r = Invocation { program: String::from_str("ip"), args };
    assert(r.args_view() =~= seq!["addr"@]);
    r
}

/// Lists the processes: `ps -aux`.
pub fn ps() -> (r: Invocation)
    ensures
        r.program@ == "ps"@,
        r.args_view() == seq!["-aux"@],
{
    let mut args: Vec<String> = Vec::new();
    args.push(String::from_str("-aux"));
    let r = Invocation { program: String::from_str("ps"), args };
    assert(r.args_view() =~= seq!["-aux"@]);
    r
}

/// Lists the block devices: `lsblk`.
pub fn lsblk() -> (r: Invocation)
    ensures
        r.program@ == "lsblk"@,
        r.args_view() == Seq::<Seq<char>>::empty(),
{
    let r = Invocation { program: String::from_str("lsblk"), args: Vec::new() };
    assert(r.args_view() =~= Seq::<Seq<char>>::empty());
    r
}

/// Lists the ARP table: `arp`.
pub fn arp() -> (r: Invocation)
    ensures
        r.program@ == "arp"@,
        r.args_view() == Seq::<Seq<char>>::empty(),
{
    let r = Invocation { program: String::from_str("arp"), args: Vec::new() };
    assert(r.args_view() =~= Seq::<Seq<char>>::empty());
    r
}

/// Whatever the diagnostic, a program that could not be started is answered
/// with the same fixed message, and whatever became of the program, the
/// answer is some text: no outcome is left without one.
pub proof fn lemma_failure_answers(outcome: RunOutcome)
    ensures
        outcome is SpawnFailed ==> response_text(outcome) == "Failed to execute command!"@,
        outcome is Finished && !valid_utf8(outcome->Finished_0@) ==> response_text(outcome)
            == "Request timeout"@,
{
}

} // verus!
