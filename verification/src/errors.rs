//! The engine's recoverable error taxonomy.

use vstd::prelude::*;

verus! {

/// An error a command or the connection loop reports.
///
/// Every variant is recoverable at the connection level except
/// [`FtpError::EmptyLine`], which signals a peer fault and terminates the
/// connection.
#[derive(Debug, Clone, Copy, PartialEq, Eq, Structural)]
pub enum FtpError {
    /// The control line held no token at all.
    EmptyLine,
    /// The keyword matches no supported command.
    UnknownCommand,
    /// The argument count does not match the command's arity.
    InvalidArgumentCount,
    /// An argument has the right position but the wrong shape.
    InvalidArgument,
    /// The directory a CWD named does not exist.
    InvalidDirectory,
    /// No data connection is available for a data-bearing command.
    MissingDataConnection,
}

impl FtpError {
    /// A human-readable description of the error.
    pub fn message(&self) -> (r: &'static str)
        ensures
            r@ == spec_error_message(*self),
    {
        match self {
            FtpError::EmptyLine => "Empty command",
            FtpError::UnknownCommand => "Invalid command",
            FtpError::InvalidArgumentCount => "Invalid number of arguments",
            FtpError::InvalidArgument => "Invalid argument",
            FtpError::InvalidDirectory => "Invalid directory",
            FtpError::MissingDataConnection => "No data connection",
        }
    }
}

/// The description each error variant carries.
pub open spec fn spec_error_message(e: FtpError) -> Seq<char> {
    match e {
        FtpError::EmptyLine => "Empty command"@,
        FtpError::UnknownCommand => "Invalid command"@,
        FtpError::InvalidArgumentCount => "Invalid number of arguments"@,
        FtpError::InvalidArgument => "Invalid argument"@,
        FtpError::InvalidDirectory => "Invalid directory"@,
        FtpError::MissingDataConnection => "No data connection"@,
    }
}

} // verus!
