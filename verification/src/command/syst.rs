//! The SYST command: reports the host system type.

use vstd::prelude::*;

use crate::command::FTPCommand;
use crate::errors::FtpError;
use crate::session::SessionState;
use crate::status_codes::StatusCode;
use crate::text::str_eq;

verus! {

/// SYST takes no arguments.
#[derive(Debug, Clone, PartialEq)]
pub struct Syst;

impl crate::command::FTPCommand for Syst {
    open spec fn spec_keyword() -> Seq<char> {
        "SYST"@
    }

    fn keyword() -> (r: &'static str) {
        "SYST"
    }

    fn is_keyword(command: &str) -> (r: bool) {
        str_eq(command, "SYST")
    }
}

impl Syst {
    /// Builds the command from a parsed line, validating that no argument
    /// was given.
    pub fn try_from(command: &str, args: Vec<String>) -> (r: Result<Self, FtpError>)
        ensures
            command@ == Self::spec_keyword() && args@.len() == 0 ==> (r matches Ok(_)),
            command@ == Self::spec_keyword() && args@.len() != 0 ==> r == Err::<Syst, FtpError>(
                FtpError::InvalidArgumentCount,
            ),
            command@ != Self::spec_keyword() ==> r == Err::<Syst, FtpError>(
                FtpError::UnknownCommand,
            ),
    {
        if str_eq(command, "SYST") {
            if args.len() == 0 {
                Ok(Syst)
            } else {
                Err(FtpError::InvalidArgumentCount)
            }
        } else {
            Err(FtpError::UnknownCommand)
        }
    }

    /// Reports the system type the session was configured with.
    pub fn execute(&self, session: &SessionState) -> (r: StatusCode)
        ensures
            r == StatusCode::SystemType(session@.system),
    {
        StatusCode::SystemType(session.system())
    }
}

} // verus!
