//! The diagnostic log.
//!
//! A message goes two ways: as a dated line appended to a file, and to the
//! system log through `logger`. This module says what is written where;
//! writing is the caller's.

use vstd::prelude::*;
use vstd::string::*;
use crate::text::{join, texts};
use crate::user::{SystemAction, SystemActionView};

verus! {

/// One message, ready to be written.
#[derive(Clone, Debug, PartialEq, Eq)]
pub struct LogEntry {
    /// The file the line is appended to.
    pub file: String,
    /// The line, without its line break.
    pub line: String,
    /// The command that hands the message to the system log.
    pub notify: SystemAction,
}

/// The mathematical content of a `LogEntry`.
pub ghost struct LogEntryView {
    pub file: Seq<char>,
    pub line: Seq<char>,
    pub notify: SystemActionView,
}

impl View for LogEntry {
    type V = LogEntryView;

    open spec fn view(&self) -> LogEntryView {
        LogEntryView { file: self.file@, line: self.line@, notify: self.notify@ }
    }
}

/// The `strftime` pattern of the time stamp that starts a line.
pub fn timestamp_format() -> (r: &'static str)
    ensures
        r@ == "%Y-%m-%d %H:%M:%S"@,
{
    "%Y-%m-%d %H:%M:%S"
}

/// The entry for `message`, written at `timestamp`.
pub open spec fn log_entry(timestamp: Seq<char>, message: Seq<char>) -> LogEntryView {
    LogEntryView {
        file: "/tmp/github_ssh.log"@,
        line: "["@ + timestamp + "] "@ + message,
        notify: SystemActionView::Run {
            program: "logger"@,
            args: seq!["-t"@, "github_ssh_auth"@, message],
        },
    }
}

/// Prepares `message` for the log, dated `timestamp`.
pub fn log_to_file(timestamp: &str, message: &str) -> (r: LogEntry)
    ensures
        r@ == log_entry(timestamp@, message@),
{
    let args = vec!["-t", "github_ssh_auth", message];
    assert(args.deep_view() =~= seq!["-t"@, "github_ssh_auth"@, message@]);
    LogEntry {
        file: String::from_str("/tmp/github_ssh.log"),
        line: join("[", timestamp).concat("] ").concat(message),
        notify: SystemAction::Run { program: String::from_str("logger"), args: texts(args) },
    }
}

} // verus!
