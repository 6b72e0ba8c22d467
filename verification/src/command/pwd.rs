//! The PWD command: reports the current working directory.

use vstd::prelude::*;

use crate::command::FTPCommand;
use crate::errors::FtpError;
use crate::session::SessionState;
use crate::status_codes::StatusCode;
use crate::text::str_eq;

verus! {

/// PWD takes no arguments.
#[derive(Debug, Clone, PartialEq)]
pub struct Pwd;

impl crate::command::FTPCommand for Pwd {
    open spec fn spec_keyword() -> Seq<char> {
        "PWD"@
    }

    fn keyword() -> (r: &'static str) {
        "PWD"
    }

    fn is_keyword(command: &str) -> (r: bool) {
        str_eq(command, "PWD")
    }
}

impl Pwd {
    /// Builds the command from a parsed line, validating that no argument
    /// was given.
    pub fn try_from(command: &str, args: Vec<String>) -> (r: Result<Self, FtpError>)
        ensures
            command@ == Self::spec_keyword() && args@.len() == 0 ==> (r matches Ok(_)),
            command@ == Self::spec_keyword() && args@.len() != 0 ==> r == Err::<Pwd, FtpError>(
                FtpError::InvalidArgumentCount,
            ),
            command@ != Self::spec_keyword() ==> r == Err::<Pwd, FtpError>(
                FtpError::UnknownCommand,
            ),
    {
        if str_eq(command, "PWD") {
            if args.len() == 0 {
                Ok(Pwd)
            } else {
                Err(FtpError::InvalidArgumentCount)
            }
        } else {
            Err(FtpError::UnknownCommand)
        }
    }

    /// Reports the session's current working directory as a quoted path.
    pub fn execute(&self, session: &SessionState) -> (r: StatusCode)
        ensures
            r matches StatusCode::PathCreated(p) && p@ == session@.cwd,
    {
        StatusCode::PathCreated(session.cwd())
    }
}

} // verus!
