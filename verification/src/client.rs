//! The client duplex: one loop reads the socket and prints lines
//! (highlighting mentions of the own name), one loop reads local input
//! and writes formatted lines to the socket, and a supervisor maps the
//! final termination reason to the process outcome.
//!
//! Both loops share one cancellation signal carrying the termination
//! reason; writes to it overwrite (last write wins). The loops suspend on
//! sockets and the terminal and so live outside this crate; each decision
//! they take is a function here, with its contract.

use vstd::prelude::*;
use crate::signal::Signal;
use crate::text::{strip_line_end, strip_newlines, contains_seq, contains_str, mention_pattern,
    format_message, frame_line};

verus! {

/// Why the client is stopping; `Running` means it is not.
#[derive(Clone, Copy, PartialEq, Eq, Structural, Debug)]
pub enum ClientExit {
    Running,
    Disconnected,
    SendFailed,
    ReadFailed,
    StdinClosed,
}

/// The process result the client reports for a final reason.
#[derive(Clone, Copy, PartialEq, Eq, Structural, Debug)]
pub enum Outcome {
    /// Exit successfully.
    Success,
    /// Fail, reporting that the server closed the connection.
    ConnectionAborted,
    /// Fail, reporting a broken pipe on send.
    BrokenPipe,
    /// Fail, reporting that the connection was reset while reading.
    ConnectionReset,
}

/// The outcome owed for each final termination reason: a closed local
/// input is a clean exit, every network failure is reported as such.
pub open spec fn outcome_of(r: ClientExit) -> Outcome {
    match r {
        ClientExit::Running => Outcome::Success,
        ClientExit::StdinClosed => Outcome::Success,
        ClientExit::Disconnected => Outcome::ConnectionAborted,
        ClientExit::SendFailed => Outcome::BrokenPipe,
        ClientExit::ReadFailed => Outcome::ConnectionReset,
    }
}

/// What the socket-reading loop observed at its suspension point.
#[derive(Debug)]
pub enum ReaderEvent {
    /// The cancellation wait completed first.
    CancelObserved,
    /// One full line arrived from the server.
    Line(String),
    /// Zero-length read: the server closed the connection.
    Closed,
    /// The read failed.
    Failed,
}

/// What the socket-reading loop must do next.
#[derive(Debug)]
pub enum ReaderAction {
    /// Show `text` to the user; `marked` asks for the mention marker.
    Print { text: String, marked: bool },
    /// Exit the reader loop.
    Stop,
}

/// What the input-forwarding loop observed at its suspension point.
#[derive(Debug)]
pub enum WriterEvent {
    /// The cancellation wait completed first.
    CancelObserved,
    /// One full line of local input.
    Line(String),
    /// End of local input.
    InputClosed,
    /// Reading local input failed.
    InputFailed,
    /// Writing the previous line to the socket failed.
    WriteFailed,
}

/// What the input-forwarding loop must do next.
#[derive(Debug)]
pub enum WriterAction {
    /// Write exactly these characters to the socket, then loop.
    Send(String),
    /// Exit the writer loop.
    Stop,
}

/// The reader loop's reaction to `ev`, relating the shared reason before
/// and after: a received line is printed with its newline stripped and is
/// marked exactly when it contains `"@<own-name>"`; a closed or failing
/// socket sets the reason and stops; observed cancellation stops quietly.
pub open spec fn reader_rel(
    name: Seq<char>,
    pre: ClientExit,
    post: ClientExit,
    ev: ReaderEvent,
    a: ReaderAction,
) -> bool {
    match ev {
        ReaderEvent::CancelObserved => a == ReaderAction::Stop && post == pre,
        ReaderEvent::Line(l) => post == pre && (a matches ReaderAction::Print { text, marked }
            && text@ == strip_newlines(l@) && marked == contains_seq(
            strip_newlines(l@),
            "@"@ + name,
        )),
        ReaderEvent::Closed => a == ReaderAction::Stop && post == ClientExit::Disconnected,
        ReaderEvent::Failed => a == ReaderAction::Stop && post == ClientExit::ReadFailed,
    }
}

/// The writer loop's reaction to `ev`: a line of input is sent as
/// `"<name>: <line>"` plus a newline; end of input (or a failing input
/// read) is a clean stop with reason StdinClosed; a failed send sets
/// SendFailed and stops; observed cancellation stops quietly.
pub open spec fn writer_rel(
    name: Seq<char>,
    pre: ClientExit,
    post: ClientExit,
    ev: WriterEvent,
    a: WriterAction,
) -> bool {
    match ev {
        WriterEvent::CancelObserved => a == WriterAction::Stop && post == pre,
        WriterEvent::Line(l) => post == pre && (a matches WriterAction::Send(w) && w@ == name
            + ": "@ + strip_newlines(l@) + "\n"@),
        WriterEvent::InputClosed => a == WriterAction::Stop && post == ClientExit::StdinClosed,
        WriterEvent::InputFailed => a == WriterAction::Stop && post == ClientExit::StdinClosed,
        WriterEvent::WriteFailed => a == WriterAction::Stop && post == ClientExit::SendFailed,
    }
}

/// The client's connection parameters.
pub struct ChatClient {
    pub addr: String,
    pub name: String,
}

impl ChatClient {
    /// A client that will connect to `addr` and speak as `name`.
    pub fn new(addr: String, name: String) -> (c: Self)
        ensures
            c.addr == addr,
            c.name == name,
    {
        ChatClient { addr, name }
    }
}

/// Decide the reader loop's next step from what it observed, updating
/// the shared termination reason where the event is terminal.
pub fn reader_step(name: &str, sig: &mut Signal<ClientExit>, ev: ReaderEvent) -> (a: ReaderAction)
    ensures
        reader_rel(name@, old(sig).current_spec(), final(sig).current_spec(), ev, a),
{
    match ev {
        ReaderEvent::CancelObserved => ReaderAction::Stop,
        ReaderEvent::Line(l) => {
            let text = strip_line_end(l.as_str());
            let pat = mention_pattern(name);
            let marked = contains_str(text.as_str(), pat.as_str());
            ReaderAction::Print { text, marked }
        },
        ReaderEvent::Closed => {
            sig.signal(ClientExit::Disconnected);
            ReaderAction::Stop
        },
        ReaderEvent::Failed => {
            sig.signal(ClientExit::ReadFailed);
            ReaderAction::Stop
        },
    }
}

/// Decide the writer loop's next step from what it observed, updating
/// the shared termination reason where the event is terminal.
pub fn writer_step(name: &str, sig: &mut Signal<ClientExit>, ev: WriterEvent) -> (a: WriterAction)
    ensures
        writer_rel(name@, old(sig).current_spec(), final(sig).current_spec(), ev, a),
{
    match ev {
        WriterEvent::CancelObserved => WriterAction::Stop,
        WriterEvent::Line(l) => {
            let body = strip_line_end(l.as_str());
            let msg = format_message(name, body.as_str());
            WriterAction::Send(frame_line(msg.as_str()))
        },
        WriterEvent::InputClosed => {
            sig.signal(ClientExit::StdinClosed);
            WriterAction::Stop
        },
        WriterEvent::InputFailed => {
            sig.signal(ClientExit::StdinClosed);
            WriterAction::Stop
        },
        WriterEvent::WriteFailed => {
            sig.signal(ClientExit::SendFailed);
            WriterAction::Stop
        },
    }
}

/// Whether the supervisor may stop waiting: the reason is terminal
/// exactly when it is no longer `Running`.
pub fn is_terminal(r: &ClientExit) -> (b: bool)
    ensures
        b == (*r != ClientExit::Running),
{
    !(*r == ClientExit::Running)
}

/// Map the final termination reason to the process outcome.
pub fn exit_outcome(r: &ClientExit) -> (o: Outcome)
    ensures
        o == outcome_of(*r),
{
    match r {
        ClientExit::Running => Outcome::Success,
        ClientExit::StdinClosed => Outcome::Success,
        ClientExit::Disconnected => Outcome::ConnectionAborted,
        ClientExit::SendFailed => Outcome::BrokenPipe,
        ClientExit::ReadFailed => Outcome::ConnectionReset,
    }
}

/// Law: end of local input is a clean exit. The writer loop's reaction
/// to a closed input sets the reason to StdinClosed and stops, and that
/// reason maps to a successful process outcome — whatever the reader
/// loop is still doing.
pub proof fn lemma_stdin_close_clean_exit(
    name: Seq<char>,
    pre: ClientExit,
    post: ClientExit,
    a: WriterAction,
)
    requires
        writer_rel(name, pre, post, WriterEvent::InputClosed, a),
    ensures
        post == ClientExit::StdinClosed,
        a == WriterAction::Stop,
        outcome_of(post) == Outcome::Success,
{
}

/// Law: a failed send is reported, never a silent success. The writer
/// loop's reaction to a write failure sets the reason to SendFailed and
/// stops, and that reason maps to the broken-pipe failure outcome.
pub proof fn lemma_send_failure_reported(
    name: Seq<char>,
    pre: ClientExit,
    post: ClientExit,
    a: WriterAction,
)
    requires
        writer_rel(name, pre, post, WriterEvent::WriteFailed, a),
    ensures
        post == ClientExit::SendFailed,
        a == WriterAction::Stop,
        outcome_of(post) == Outcome::BrokenPipe,
        outcome_of(post) != Outcome::Success,
{
}

} // verus!
