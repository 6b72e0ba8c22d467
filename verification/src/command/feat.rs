//! The FEAT command: reports the supported feature list.

use vstd::prelude::*;

use crate::command::FTPCommand;
use crate::errors::FtpError;
use crate::status_codes::StatusCode;
use crate::text::str_eq;

verus! {

/// FEAT takes no arguments.
#[derive(Debug, Clone, PartialEq)]
pub struct Feat;

/// The body of the multi-line feature reply: the extensions this engine
/// announces.
pub open spec fn spec_feature_body() -> Seq<char> {
    "Features:\n MLST\n MLSD\n UTF8"@
}

impl crate::command::FTPCommand for Feat {
    open spec fn spec_keyword() -> Seq<char> {
        "FEAT"@
    }

    fn keyword() -> (r: &'static str) {
        "FEAT"
    }

    fn is_keyword(command: &str) -> (r: bool) {
        str_eq(command, "FEAT")
    }
}

impl Feat {
    /// Builds the command from a parsed line, validating that no argument
    /// was given.
    pub fn try_from(command: &str, args: Vec<String>) -> (r: Result<Self, FtpError>)
        ensures
            command@ == Self::spec_keyword() && args@.len() == 0 ==> (r matches Ok(_)),
            command@ == Self::spec_keyword() && args@.len() != 0 ==> r == Err::<Feat, FtpError>(
                FtpError::InvalidArgumentCount,
            ),
            command@ != Self::spec_keyword() ==> r == Err::<Feat, FtpError>(
                FtpError::UnknownCommand,
            ),
    {
        if str_eq(command, "FEAT") {
            if args.len() == 0 {
                Ok(Feat)
            } else {
                Err(FtpError::InvalidArgumentCount)
            }
        } else {
            Err(FtpError::UnknownCommand)
        }
    }

    /// Reports the static feature list as a multi-line system status.
    pub fn execute(&self) -> (r: StatusCode)
        ensures
            r matches StatusCode::SystemStatus(b) && b@ == spec_feature_body(),
    {
        StatusCode::SystemStatus(String::from_str("Features:\n MLST\n MLSD\n UTF8"))
    }
}

} // verus!
