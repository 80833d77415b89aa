//! The record of an unexpected failure: what is written to the log before
//! the daemon leaves in good order.

use crate::text::{decimal, push_decimal};
use vstd::prelude::*;
use vstd::string::*;

verus! {

/// A place in the source: file, line and column.
#[derive(Clone, Debug, PartialEq, Eq)]
pub struct SourceLocation {
    pub file: String,
    pub line: u32,
    pub column: u32,
}

/// An unexpected failure: a summary, the place where it arose if that is
/// known, and its message if it has one.
#[derive(Clone, Debug, PartialEq, Eq)]
pub struct FailureReport {
    pub summary: String,
    pub location: Option<SourceLocation>,
    pub message: Option<String>,
}

/// The mathematical content of a [`SourceLocation`].
pub struct SourceLocationView {
    pub file: Seq<char>,
    pub line: u32,
    pub column: u32,
}

/// The mathematical content of a [`FailureReport`].
pub struct FailureReportView {
    pub summary: Seq<char>,
    pub location: Option<SourceLocationView>,
    pub message: Option<Seq<char>>,
}

impl View for SourceLocation {
    type V = SourceLocationView;

    open spec fn view(&self) -> SourceLocationView {
        SourceLocationView { file: self.file@, line: self.line, column: self.column }
    }
}

impl View for FailureReport {
    type V = FailureReportView;

    open spec fn view(&self) -> FailureReportView {
        FailureReportView {
            summary: self.summary@,
            location: match self.location {
                Some(location) => Some(location@),
                None => None,
            },
            message: match self.message {
                Some(message) => Some(message@),
                None => None,
            },
        }
    }
}

impl SourceLocationView {
    /// The line of the log that gives the place: `Location: file:line:column`.
    pub open spec fn log_line(self) -> Seq<char> {
        "Location: "@ + self.file + ":"@ + decimal(self.line as nat) + ":"@ + decimal(
            self.column as nat,
        )
    }
}

impl FailureReportView {
    /// The lines of the log for this failure, in order: the summary, then
    /// the place if it is known, then the message if there is one.
    pub open spec fn log_lines(self) -> Seq<Seq<char>> {
        let head = seq!["PANIC: "@ + self.summary];
        let place = match self.location {
            Some(location) => seq![location.log_line()],
            None => Seq::<Seq<char>>::empty(),
        };
        let text = match self.message {
            Some(message) => seq!["Message: "@ + message],
            None => Seq::<Seq<char>>::empty(),
        };
        head + place + text
    }
}

impl SourceLocation {
    /// The line of the log that gives the place.
    pub fn log_line(&self) -> (line: String)
        ensures
            line@ == self@.log_line(),
    {
        let mut line = String::from_str("Location: ");
        line.append(self.file.as_str());
        line.append(":");
        push_decimal(&mut line, self.line);
        line.append(":");
        push_decimal(&mut line, self.column);
        line
    }
}

impl FailureReport {
    /// The lines to write to the log for this failure.
    pub fn log_lines(&self) -> (lines: Vec<String>)
        ensures
            lines.deep_view() == self@.log_lines(),
    {
        let mut lines: Vec<String> = Vec::new();
        let mut head = String::from_str("PANIC: ");
        head.append(self.summary.as_str());
        lines.push(head);
        match &self.location {
            Some(location) => {
                lines.push(location.log_line());
            },
            None => {},
        }
        match &self.message {
            Some(message) => {
                let mut text = String::from_str("Message: ");
                text.append(message.as_str());
                lines.push(text);
            },
            None => {},
        }
        assert(lines.deep_view() =~= self@.log_lines());
        lines
    }
}

} // verus!
