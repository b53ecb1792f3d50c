//! The collaborator capabilities the console consumes. The console's own
//! logic never performs input/output itself: a logging sink receives
//! prompt, echo and error text, a terminal hands over one line at a time, a
//! filesystem reads a file's content, and a parser turns that content into
//! an automation tree. Implementations live outside the verified library;
//! nothing is assumed of them beyond their signatures.

use vstd::prelude::*;
use crate::error::DataError;
use crate::status::ConsoleStatus;
use crate::tree::ExecuteFile;

verus! {

/// The logging sink: fire-and-forget notifications, plus the fixed
/// invalid-input message the console queries once at construction.
pub trait ConsoleLog {
    /// Receives the assembled prompt to show the operator.
    fn prompt_log(&self, log_info: &str);

    /// Receives an accepted terminal line.
    fn terminal_exc_log(&self, log_info: &str);

    /// Receives an accepted automation-file command.
    fn file_exc_log(&self, log_info: &str);

    /// Receives an error surfaced to the caller.
    fn err_log(&self, err_info: &DataError);

    /// Receives a status change, previous to current.
    fn status_log(&self, previous: ConsoleStatus, current: ConsoleStatus);

    /// The fixed message describing invalid input.
    fn err_invalid(&self) -> &'static str;
}

/// The terminal: hands over one raw line per call, or an input/output
/// fault.
pub trait ConsoleTerminal {
    fn line_read(&mut self) -> Result<String, DataError>;
}

/// The filesystem: hands over a file's whole content, or an input/output
/// fault.
pub trait ConsoleFilesystem {
    fn read_to_string(&mut self, path: &str) -> Result<String, DataError>;
}

/// The structured-format parser: turns file content into an automation
/// tree, or reports that it could not.
pub trait ConsoleParser {
    fn parse(&mut self, content: &str) -> Result<ExecuteFile, DataError>;
}

} // verus!
