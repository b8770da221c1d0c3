//! The ways in which making or storing a receipt can fail.

use vstd::prelude::*;
use vstd::string::*;

verus! {

/// A failure of the wrapper itself. What the wrapped command does once it runs,
/// a non-zero exit or death by a signal included, is no failure of this kind:
/// that is recorded in the receipt.
#[derive(Clone, Debug, PartialEq, Eq)]
pub enum ReceiptError {
    /// There is no command to run.
    Usage,
    /// The executable could not be launched.
    Spawn { command: String },
    /// The receipt could not be encoded.
    Serialization,
    /// The directory that is to hold the receipt at `path` could not be made.
    CreateDirectory { path: String },
    /// The receipt could not be written to `path`.
    WriteFile { path: String },
}

impl ReceiptError {
    /// The text of `message`.
    pub open spec fn message_text(self) -> Seq<char> {
        match self {
            ReceiptError::Usage => "No command specified"@,
            ReceiptError::Spawn { command } => "Failed to execute command: "@ + command@,
            ReceiptError::Serialization => "Failed to serialize receipt to JSON"@,
            ReceiptError::CreateDirectory { path } => "Failed to create parent directories for "@
                + path@,
            ReceiptError::WriteFile { path } => "Failed to write receipt to "@ + path@,
        }
    }

    /// One line for the error stream. It names the executable that could not be
    /// launched, or the path that could not be written.
    pub fn message(&self) -> (text: String)
        ensures
            text@ == self.message_text(),
    {
        match self {
            ReceiptError::Usage => String::from_str("No command specified"),
            ReceiptError::Spawn { command } => String::from_str(
                "Failed to execute command: ",
            ).concat(command.as_str()),
            ReceiptError::Serialization => String::from_str("Failed to serialize receipt to JSON"),
            ReceiptError::CreateDirectory { path } => String::from_str(
                "Failed to create parent directories for ",
            ).concat(path.as_str()),
            ReceiptError::WriteFile { path } => String::from_str(
                "Failed to write receipt to ",
            ).concat(path.as_str()),
        }
    }
}

} // verus!
