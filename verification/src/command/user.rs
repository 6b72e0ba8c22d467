//! The USER command: names the user logging in.

use vstd::prelude::*;

use crate::command::FTPCommand;
use crate::errors::FtpError;
use crate::status_codes::StatusCode;
use crate::text::str_eq;

verus! {

/// USER with the announced user name. Credential verification is an explicit
/// non-goal: any user is accepted.
#[derive(Debug, Clone, PartialEq)]
pub struct User(pub String);

impl crate::command::FTPCommand for User {
    open spec fn spec_keyword() -> Seq<char> {
        "USER"@
    }

    fn keyword() -> (r: &'static str) {
        "USER"
    }

    fn is_keyword(command: &str) -> (r: bool) {
        str_eq(command, "USER")
    }
}

impl User {
    /// Builds the command from a parsed line, validating the single
    /// user-name argument.
    pub fn try_from(command: &str, args: Vec<String>) -> (r: Result<Self, FtpError>)
        ensures
            command@ == Self::spec_keyword() && args@.len() == 1 ==> (r matches Ok(c) && c.0
                == args@[0]),
            command@ == Self::spec_keyword() && args@.len() != 1 ==> r == Err::<User, FtpError>(
                FtpError::InvalidArgumentCount,
            ),
            command@ != Self::spec_keyword() ==> r == Err::<User, FtpError>(
                FtpError::UnknownCommand,
            ),
    {
        if str_eq(command, "USER") {
            if args.len() == 1 {
                let mut args = args;
                Ok(User(args.remove(0)))
            } else {
                Err(FtpError::InvalidArgumentCount)
            }
        } else {
            Err(FtpError::UnknownCommand)
        }
    }

    /// Logs the user in unconditionally.
    pub fn execute(&self) -> (r: StatusCode)
        ensures
            r == StatusCode::UserLoggedIn,
    {
        StatusCode::UserLoggedIn
    }
}

} // verus!
