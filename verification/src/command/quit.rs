//! The QUIT command: ends the session.

use vstd::prelude::*;

use crate::command::FTPCommand;
use crate::errors::FtpError;
use crate::status_codes::StatusCode;
use crate::text::str_eq;

verus! {

/// QUIT takes no arguments.
#[derive(Debug, Clone, PartialEq)]
pub struct Quit;

impl crate::command::FTPCommand for Quit {
    open spec fn spec_keyword() -> Seq<char> {
        "QUIT"@
    }

    fn keyword() -> (r: &'static str) {
        "QUIT"
    }

    fn is_keyword(command: &str) -> (r: bool) {
        str_eq(command, "QUIT")
    }
}

impl Quit {
    /// Builds the command from a parsed line, validating that no argument
    /// was given.
    pub fn try_from(command: &str, args: Vec<String>) -> (r: Result<Self, FtpError>)
        ensures
            command@ == Self::spec_keyword() && args@.len() == 0 ==> (r matches Ok(_)),
            command@ == Self::spec_keyword() && args@.len() != 0 ==> r == Err::<Quit, FtpError>(
                FtpError::InvalidArgumentCount,
            ),
            command@ != Self::spec_keyword() ==> r == Err::<Quit, FtpError>(
                FtpError::UnknownCommand,
            ),
    {
        if str_eq(command, "QUIT") {
            if args.len() == 0 {
                Ok(Quit)
            } else {
                Err(FtpError::InvalidArgumentCount)
            }
        } else {
            Err(FtpError::UnknownCommand)
        }
    }

    /// The farewell reply; after writing it the connection loop shuts the
    /// control socket down and stops reading.
    pub fn execute(&self) -> (r: StatusCode)
        ensures
            r == StatusCode::ServiceClosingControlConnection,
    {
        StatusCode::ServiceClosingControlConnection
    }
}

} // verus!
