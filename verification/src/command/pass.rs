//! The PASS command: supplies a password.

use vstd::prelude::*;

use crate::command::FTPCommand;
use crate::errors::FtpError;
use crate::status_codes::StatusCode;
use crate::text::str_eq;

verus! {

/// PASS with the supplied password. Credential verification is an explicit
/// non-goal: any password — or none, in which case "anonymous" stands in —
/// is accepted.
#[derive(Debug, Clone, PartialEq)]
pub struct Pass(pub String);

impl crate::command::FTPCommand for Pass {
    open spec fn spec_keyword() -> Seq<char> {
        "PASS"@
    }

    fn keyword() -> (r: &'static str) {
        "PASS"
    }

    fn is_keyword(command: &str) -> (r: bool) {
        str_eq(command, "PASS")
    }
}

impl Pass {
    /// Builds the command from a parsed line; the password argument is
    /// optional and defaults to "anonymous".
    pub fn try_from(command: &str, args: Vec<String>) -> (r: Result<Self, FtpError>)
        ensures
            command@ == Self::spec_keyword() && args@.len() == 1 ==> (r matches Ok(c) && c.0
                == args@[0]),
            command@ == Self::spec_keyword() && args@.len() == 0 ==> (r matches Ok(c) && c.0@
                == "anonymous"@),
            command@ == Self::spec_keyword() && args@.len() > 1 ==> r == Err::<Pass, FtpError>(
                FtpError::InvalidArgumentCount,
            ),
            command@ != Self::spec_keyword() ==> r == Err::<Pass, FtpError>(
                FtpError::UnknownCommand,
            ),
    {
        if str_eq(command, "PASS") {
            if args.len() == 1 {
                let mut args = args;
                Ok(Pass(args.remove(0)))
            } else if args.len() == 0 {
                Ok(Pass(String::from_str("anonymous")))
            } else {
                Err(FtpError::InvalidArgumentCount)
            }
        } else {
            Err(FtpError::UnknownCommand)
        }
    }

    /// Logs the user in unconditionally.
    pub fn execute(&self) -> (r: StatusCode)
        ensures
            r == StatusCode::UserLoggedIn,
    {
        StatusCode::UserLoggedIn
    }
}

} // verus!
