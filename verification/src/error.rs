//! What can go wrong, and the one line that reports it.

use vstd::prelude::*;
use vstd::string::*;

verus! {

/// A failure of one run. Each variant carries the text that its report needs.
#[derive(Debug, Clone, PartialEq, Eq)]
pub enum AppError {
    /// The tool ran and reported failure; holds the command as text.
    CmdError(String),
    /// A failure told in full by its message, such as a profile that the
    /// configuration does not hold.
    Generic(String),
    /// Reading or launching failed; holds the system's words.
    Io(String),
    /// The configuration could not be read; holds where it lies and why.
    ProfileError(String, String),
    /// The tool's output was not the expected document; holds why.
    UnexpectedOutput(String),
}

impl AppError {
    /// The report of a failure.
    pub open spec fn message_text(self) -> Seq<char> {
        match self {
            AppError::CmdError(command) => "AWS CLI call failed: "@ + command@,
            AppError::Generic(message) => message@,
            AppError::Io(reason) => reason@,
            AppError::ProfileError(location, reason) => "unable to read "@ + location@ + ": "@
                + reason@,
            AppError::UnexpectedOutput(reason) => "unexpected output from AWS CLI call: "@
                + reason@,
        }
    }

    /// The report of this failure, as one line.
    pub fn message(&self) -> (r: String)
        ensures
            r@ == self.message_text(),
    {
        match self {
            AppError::CmdError(command) => String::from_str("AWS CLI call failed: ").concat(
                command.as_str(),
            ),
            AppError::Generic(message) => message.clone(),
            AppError::Io(reason) => reason.clone(),
            AppError::ProfileError(location, reason) => String::from_str("unable to read ").concat(
                location.as_str(),
            ).concat(": ").concat(reason.as_str()),
            AppError::UnexpectedOutput(reason) => String::from_str(
                "unexpected output from AWS CLI call: ",
            ).concat(reason.as_str()),
        }
    }
}

impl From<String> for AppError {
    fn from(error: String) -> (r: AppError) {
        AppError::Generic(error)
    }
}

impl vstd::std_specs::convert::FromSpecImpl<String> for AppError {
    open spec fn obeys_from_spec() -> bool {
        true
    }

    open spec fn from_spec(error: String) -> AppError {
        AppError::Generic(error)
    }
}

} // verus!
