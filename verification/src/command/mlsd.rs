//! The MLSD command: sends a machine-readable directory listing over the
//! data channel.

use vstd::prelude::*;

use crate::command::FTPCommand;
use crate::errors::FtpError;
use crate::status_codes::StatusCode;
use crate::text::str_eq;
use crate::transfer::TransferPlan;

verus! {

/// MLSD with whatever arguments the client gave; they are accepted and
/// ignored, and the session's working directory is listed.
#[derive(Debug, Clone, PartialEq)]
pub struct Mlsd(pub Vec<String>);

impl crate::command::FTPCommand for Mlsd {
    open spec fn spec_keyword() -> Seq<char> {
        "MLSD"@
    }

    fn keyword() -> (r: &'static str) {
        "MLSD"
    }

    fn is_keyword(command: &str) -> (r: bool) {
        str_eq(command, "MLSD")
    }
}

impl Mlsd {
    /// Builds the command from a parsed line; any argument list is
    /// accepted.
    pub fn try_from(command: &str, args: Vec<String>) -> (r: Result<Self, FtpError>)
        ensures
            command@ == Self::spec_keyword() ==> (r matches Ok(c) && c.0 == args),
            command@ != Self::spec_keyword() ==> r == Err::<Mlsd, FtpError>(
                FtpError::UnknownCommand,
            ),
    {
        if str_eq(command, "MLSD") {
            Ok(Mlsd(args))
        } else {
            Err(FtpError::UnknownCommand)
        }
    }

    /// Decides the transfer. A missing data connection is refused with 425;
    /// otherwise the listing is sent between the 150 preliminary reply and
    /// the 226 completion reply.
    pub fn plan(&self, data_ready: bool) -> (r: TransferPlan)
        ensures
            !data_ready ==> r == TransferPlan::Refused(StatusCode::CantOpenDataConnection),
            data_ready ==> (r matches TransferPlan::Proceed { preliminary, completion }
                && preliminary matches StatusCode::FileStatusOk(m) && m@
                == "Directory listing has started"@ && completion
                == StatusCode::ClosingDataConnection),
    {
        if !data_ready {
            TransferPlan::Refused(StatusCode::CantOpenDataConnection)
        } else {
            TransferPlan::Proceed {
                preliminary: StatusCode::FileStatusOk(
                    String::from_str("Directory listing has started"),
                ),
                completion: StatusCode::ClosingDataConnection,
            }
        }
    }
}

} // verus!
