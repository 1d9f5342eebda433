//! What the library reports instead of doing what it was asked.

use vstd::prelude::*;
use vstd::string::StringExecFns;
use crate::text::Text;

verus! {

/// The two actions that change the configuration.
#[derive(Clone, Copy, Debug, PartialEq, Eq, Structural)]
pub enum Operation {
    /// Binding a key to a command.
    Add,
    /// Removing a key.
    Delete,
}

/// One of the two streams that a line for the user can go to.
#[derive(Clone, Copy, Debug, PartialEq, Eq, Structural)]
pub enum Stream {
    /// Standard output.
    Output,
    /// The error stream.
    Error,
}

/// A request that was turned down. Nothing is launched and nothing is changed
/// when one of these comes back.
#[derive(Clone, Debug, PartialEq, Eq)]
pub enum CryError {
    /// The file name holds no dot, so it has no extension to go by.
    InvalidFileType,
    /// No command is mapped to the extension of the file.
    ExtensionNotFound { extension: String },
    /// No command is mapped to the alias.
    CommandNotFound { alias: String },
    /// The program that a template names is not on the execution path; a
    /// template without tokens names the empty program, which never is.
    LaunchError { program: String },
    /// Of the two flags that pick a mapping, both were given (`both`) or
    /// neither was.
    FlagCombinationError { operation: Operation, both: bool },
}

impl CryError {
    /// The stream that the line for this error goes to: what is said of a
    /// file's name or extension goes to standard output, all else to the
    /// error stream.
    pub open spec fn stream_of(&self) -> Stream {
        match self {
            CryError::InvalidFileType => Stream::Output,
            CryError::ExtensionNotFound { .. } => Stream::Output,
            _ => Stream::Error,
        }
    }

    /// Tells the stream that the line for this error goes to.
    pub fn stream(&self) -> (stream: Stream)
        ensures
            stream == self.stream_of(),
    {
        match self {
            CryError::InvalidFileType => Stream::Output,
            CryError::ExtensionNotFound { .. } => Stream::Output,
            _ => Stream::Error,
        }
    }

    /// The line that tells the user of this error.
    pub open spec fn message_text(&self) -> Text {
        match self {
            CryError::InvalidFileType => "Invalid file type"@,
            CryError::ExtensionNotFound { extension } => "No command found for file extension: "@
                + extension@,
            CryError::CommandNotFound { alias } => "Command \""@ + alias@
                + "\" not found in config."@,
            CryError::LaunchError { program } => "Error: Program '"@ + program@
                + "' was not found on the execution path."@,
            CryError::FlagCombinationError { operation: Operation::Add, both: true } =>
                "Error: Cannot add both commands and extensions simultaneously. Please choose one."@,
            CryError::FlagCombinationError { operation: Operation::Add, both: false } =>
                "Error: Please specify whether to add a command or an extension."@,
            CryError::FlagCombinationError { operation: Operation::Delete, both: true } =>
                "Error: Cannot remove both commands and extensions simultaneously. Please choose one."@,
            CryError::FlagCombinationError { operation: Operation::Delete, both: false } =>
                "Error: Please specify whether to delete a command or an extension."@,
        }
    }

    /// Builds the line that tells the user of this error.
    pub fn message(&self) -> (line: String)
        ensures
            line@ == self.message_text(),
    {
        match self {
            CryError::InvalidFileType => String::from_str("Invalid file type"),
            CryError::ExtensionNotFound { extension } => {
                let mut line = String::from_str("No command found for file extension: ");
                line.append(extension.as_str());
                line
            },
            CryError::CommandNotFound { alias } => {
                let mut line = String::from_str("Command \"");
                line.append(alias.as_str());
                line.append("\" not found in config.");
                line
            },
            CryError::LaunchError { program } => {
                let mut line = String::from_str("Error: Program '");
                line.append(program.as_str());
                line.append("' was not found on the execution path.");
                line
            },
            CryError::FlagCombinationError { operation: Operation::Add, both: true } => String::from_str(
                "Error: Cannot add both commands and extensions simultaneously. Please choose one.",
            ),
            CryError::FlagCombinationError { operation: Operation::Add, both: false } => String::from_str(
                "Error: Please specify whether to add a command or an extension.",
            ),
            CryError::FlagCombinationError {
                operation: Operation::Delete,
                both: true,
            } => String::from_str(
                "Error: Cannot remove both commands and extensions simultaneously. Please choose one.",
            ),
            CryError::FlagCombinationError {
                operation: Operation::Delete,
                both: false,
            } => String::from_str(
                "Error: Please specify whether to delete a command or an extension.",
            ),
        }
    }
}

} // verus!
