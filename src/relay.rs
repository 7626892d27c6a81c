use vstd::prelude::*;
use vstd::string::*;
use vstd::utf8::{decode_utf8, valid_utf8};

use crate::logline::{LogLine, Severity};

verus! {

/// The text that lossy UTF-8 decoding gives for a byte sequence.
pub uninterp spec fn lossy_utf8(b: Seq<u8>) -> Seq<char>;

/// Relies on `String::from_utf8_lossy`: the text depends on the bytes alone,
/// valid UTF-8 is decoded as it stands, and every invalid sequence is
/// rendered as U+FFFD.
#[verifier::external_body]
fn decode_lossy(b: &[u8]) -> (r: String)
    ensures
        r@ == lossy_utf8(b@),
        valid_utf8(b@) ==> r@ == decode_utf8(b@),
        !valid_utf8(b@) ==> r@.contains('\u{FFFD}'),
{
    String::from_utf8_lossy(b).into_owned()
}

/// One event of the worker's I/O channel.
#[derive(Debug)]
pub enum OutputEvent {
    Stdout(Vec<u8>),
    Stderr(Vec<u8>),
    Error(String),
    Terminated,
}

/// The prefix of a line relayed from the worker's standard output.
pub open spec fn stdout_prefix() -> Seq<char> {
    "Backend stdout: "@
}

/// The prefix of a line relayed from the worker's standard error.
pub open spec fn stderr_prefix() -> Seq<char> {
    "Backend stderr: "@
}

/// The log line for a decoded chunk of standard output or standard error.
pub open spec fn chunk_report(from_stderr: bool, decoded: Seq<char>) -> (Severity, Seq<char>) {
    if from_stderr {
        (Severity::Error, stderr_prefix() + decoded)
    } else {
        (Severity::Info, stdout_prefix() + decoded)
    }
}

/// The log line that an event of the channel gives, if any.
pub open spec fn event_report(ev: OutputEvent) -> Option<(Severity, Seq<char>)> {
    match ev {
        OutputEvent::Stdout(b) => Some(chunk_report(false, lossy_utf8(b@))),
        OutputEvent::Stderr(b) => Some(chunk_report(true, lossy_utf8(b@))),
        OutputEvent::Error(_) => None,
        OutputEvent::Terminated => None,
    }
}

/// The log line of an output chunk that is valid UTF-8, decoded as it stands.
pub open spec fn valid_chunk_report(ev: OutputEvent) -> Option<(Severity, Seq<char>)> {
    match ev {
        OutputEvent::Stdout(b) => Some(chunk_report(false, decode_utf8(b@))),
        OutputEvent::Stderr(b) => Some(chunk_report(true, decode_utf8(b@))),
        _ => None,
    }
}

/// Whether an event is an output chunk that is not valid UTF-8.
pub open spec fn invalid_chunk(ev: OutputEvent) -> bool {
    match ev {
        OutputEvent::Stdout(b) => !valid_utf8(b@),
        OutputEvent::Stderr(b) => !valid_utf8(b@),
        _ => false,
    }
}

/// A character of the text is still there after the prefix.
proof fn lemma_keeps_char(prefix: Seq<char>, s: Seq<char>, c: char)
    requires
        s.contains(c),
    ensures
        (prefix + s).contains(c),
{
    let i = choose|i: int| 0 <= i < s.len() && s[i] == c;
    assert((prefix + s)[prefix.len() + i] == c);
}

/// Formats a decoded chunk of the worker's output as a log line.
pub fn chunk_line(from_stderr: bool, decoded: &str) -> (l: LogLine)
    ensures
        l@ == chunk_report(from_stderr, decoded@),
        decoded@.contains('\u{FFFD}') ==> l.text@.contains('\u{FFFD}'),
{
    proof {
        if decoded@.contains('\u{FFFD}') {
            lemma_keeps_char("Backend stdout: "@, decoded@, '\u{FFFD}');
            lemma_keeps_char("Backend stderr: "@, decoded@, '\u{FFFD}');
        }
    }
    if from_stderr {
        LogLine { severity: Severity::Error, text: String::from_str("Backend stderr: ").concat(decoded) }
    } else {
        LogLine { severity: Severity::Info, text: String::from_str("Backend stdout: ").concat(decoded) }
    }
}

/// The log line for one event of the channel: output chunks are decoded
/// lossily and tagged by stream, other events give none.
pub fn event_line(ev: &OutputEvent) -> (r: Option<LogLine>)
    ensures
        r matches Some(l) ==> event_report(*ev) == Some(l@),
        r is None ==> event_report(*ev) is None,
        invalid_chunk(*ev) ==> (r matches Some(l) && l.text@.contains('\u{FFFD}')),
        r is Some && !invalid_chunk(*ev) ==> valid_chunk_report(*ev) == Some(r->0@),
{
    match ev {
        OutputEvent::Stdout(b) => Some(chunk_line(false, decode_lossy(b.as_slice()).as_str())),
        OutputEvent::Stderr(b) => Some(chunk_line(true, decode_lossy(b.as_slice()).as_str())),
        OutputEvent::Error(_) => None,
        OutputEvent::Terminated => None,
    }
}

/// What the relay does with what it received from the channel.
#[derive(Debug)]
pub enum RelayAction {
    /// Hand the line to the logging sink and wait for the next event.
    Forward(LogLine),
    /// Nothing to log; wait for the next event.
    Skip,
    /// The channel is closed: the relay task ends.
    Stop,
}

/// The relay's decision for what it received, given whether it was still
/// draining: `None` stands for a closed channel.
pub open spec fn relay_decision(open: bool, received: Option<OutputEvent>) -> (bool, Option<Option<(Severity, Seq<char>)>>) {
    if !open {
        (false, None)
    } else {
        match received {
            None => (false, None),
            Some(ev) => (true, Some(event_report(ev))),
        }
    }
}

/// Whether an action carries out a decision: `None` is a stop, `Some(None)`
/// a skip, and `Some(Some(l))` the forwarding of line `l`.
pub open spec fn carries_out(a: RelayAction, d: Option<Option<(Severity, Seq<char>)>>) -> bool {
    match a {
        RelayAction::Stop => d is None,
        RelayAction::Skip => d == Some(None::<(Severity, Seq<char>)>),
        RelayAction::Forward(l) => d == Some(Some(l@)),
    }
}

/// Drains the worker's output channel into log lines, until the channel closes.
pub struct OutputRelay {
    open: bool,
}

impl View for OutputRelay {
    type V = bool;

    /// Whether the relay is still draining.
    closed spec fn view(&self) -> bool {
        self.open
    }
}

impl OutputRelay {
    /// A relay that has just been started on an open channel.
    pub fn new() -> (r: Self)
        ensures
            r@,
    {
        OutputRelay { open: true }
    }

    /// Whether the relay is still draining.
    pub fn is_draining(&self) -> (r: bool)
        ensures
            r == self@,
    {
        self.open
    }

    /// Handles what the channel gave: an event, or `None` once it is closed.
    pub fn on_receive(&mut self, received: Option<OutputEvent>) -> (a: RelayAction)
        ensures
            final(self)@ == relay_decision(old(self)@, received).0,
            carries_out(a, relay_decision(old(self)@, received).1),
            old(self)@ && received is Some && invalid_chunk(received->0) ==> {
                &&& final(self)@
                &&& a matches RelayAction::Forward(l) && l.text@.contains('\u{FFFD}')
            },
    {
        if !self.open {
            return RelayAction::Stop;
        }
        match received {
            None => {
                self.open = false;
                RelayAction::Stop
            },
            Some(ev) => match event_line(&ev) {
                Some(l) => RelayAction::Forward(l),
                None => RelayAction::Skip,
            },
        }
    }
}

/// Once the channel is closed the relay stops, with no error and no outside
/// cancellation, and it stays stopped whatever it is handed afterwards.
pub proof fn lemma_relay_stops_on_close(open: bool, later: Option<OutputEvent>)
    ensures
        relay_decision(open, None).0 == false,
        relay_decision(open, None).1 is None,
        relay_decision(relay_decision(open, None).0, later).0 == false,
        relay_decision(relay_decision(open, None).0, later).1 is None,
{
}

} // verus!
