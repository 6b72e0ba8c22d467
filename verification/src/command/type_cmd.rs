//! The TYPE command: selects a representation type.

use vstd::prelude::*;

use crate::command::FTPCommand;
use crate::errors::FtpError;
use crate::status_codes::StatusCode;
use crate::text::str_eq;

verus! {

/// TYPE with the representation-type character. The engine acknowledges the
/// selection but does not change transfer behaviour.
#[derive(Debug, Clone, PartialEq)]
pub struct Type(pub char);

impl crate::command::FTPCommand for Type {
    open spec fn spec_keyword() -> Seq<char> {
        "TYPE"@
    }

    fn keyword() -> (r: &'static str) {
        "TYPE"
    }

    fn is_keyword(command: &str) -> (r: bool) {
        str_eq(command, "TYPE")
    }
}

impl Type {
    /// Builds the command from a parsed line: one argument whose first
    /// character names the representation type.
    pub fn try_from(command: &str, args: Vec<String>) -> (r: Result<Self, FtpError>)
        ensures
            command@ == Self::spec_keyword() && args@.len() == 1 && args@[0]@.len() > 0 ==> (
            r matches Ok(c) && c.0 == args@[0]@[0]),
            command@ == Self::spec_keyword() && args@.len() == 1 && args@[0]@.len() == 0 ==> r
                == Err::<Type, FtpError>(FtpError::InvalidArgument),
            command@ == Self::spec_keyword() && args@.len() != 1 ==> r == Err::<Type, FtpError>(
                FtpError::InvalidArgumentCount,
            ),
            command@ != Self::spec_keyword() ==> r == Err::<Type, FtpError>(
                FtpError::UnknownCommand,
            ),
    {
        if str_eq(command, "TYPE") {
            if args.len() == 1 {
                let arg = args[0].as_str();
                if arg.unicode_len() > 0 {
                    Ok(Type(arg.get_char(0)))
                } else {
                    Err(FtpError::InvalidArgument)
                }
            } else {
                Err(FtpError::InvalidArgumentCount)
            }
        } else {
            Err(FtpError::UnknownCommand)
        }
    }

    /// Acknowledges the selection; transfer mode is not currently enforced.
    pub fn execute(&self) -> (r: StatusCode)
        ensures
            r == StatusCode::Okay,
    {
        StatusCode::Okay
    }
}

} // verus!
