use vstd::prelude::*;

verus! {

/// How a line is reported: ordinary progress, or a failure.
#[derive(PartialEq, Eq, Structural, Debug, Clone, Copy)]
pub enum Severity {
    Info,
    Error,
}

/// One message for the host's logging sink.
#[derive(Debug, PartialEq, Eq)]
pub struct LogLine {
    pub severity: Severity,
    pub text: String,
}

impl View for LogLine {
    type V = (Severity, Seq<char>);

    open spec fn view(&self) -> (Severity, Seq<char>) {
        (self.severity, self.text@)
    }
}

} // verus!
