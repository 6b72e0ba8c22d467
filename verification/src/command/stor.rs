//! The STOR command: receives a file from the client over the data channel.

use vstd::prelude::*;

use crate::command::FTPCommand;
use crate::errors::FtpError;
use crate::session::{spec_join_path, SessionState};
use crate::status_codes::StatusCode;
use crate::text::str_eq;
use crate::transfer::TransferPlan;

verus! {

/// STOR with the cwd-relative destination name.
#[derive(Debug, Clone, PartialEq)]
pub struct Stor(pub String);

impl crate::command::FTPCommand for Stor {
    open spec fn spec_keyword() -> Seq<char> {
        "STOR"@
    }

    fn keyword() -> (r: &'static str) {
        "STOR"
    }

    fn is_keyword(command: &str) -> (r: bool) {
        str_eq(command, "STOR")
    }
}

impl Stor {
    /// Builds the command from a parsed line, validating the single
    /// destination argument.
    pub fn try_from(command: &str, args: Vec<String>) -> (r: Result<Self, FtpError>)
        ensures
            command@ == Self::spec_keyword() && args@.len() == 1 ==> (r matches Ok(c) && c.0
                == args@[0]),
            command@ == Self::spec_keyword() && args@.len() != 1 ==> r == Err::<Stor, FtpError>(
                FtpError::InvalidArgumentCount,
            ),
            command@ != Self::spec_keyword() ==> r == Err::<Stor, FtpError>(
                FtpError::UnknownCommand,
            ),
    {
        if str_eq(command, "STOR") {
            if args.len() == 1 {
                let mut args = args;
                Ok(Stor(args.remove(0)))
            } else {
                Err(FtpError::InvalidArgumentCount)
            }
        } else {
            Err(FtpError::UnknownCommand)
        }
    }

    /// The destination the argument resolves to against the session's
    /// working directory; the received bytes are written there, unaltered.
    pub fn destination(&self, session: &SessionState) -> (r: String)
        ensures
            r@ == spec_join_path(session@.cwd, self.0@),
    {
        let cwd = session.cwd();
        crate::session::join_path(cwd.as_str(), self.0.as_str())
    }

    /// Decides the transfer. A missing data connection is refused with 425;
    /// otherwise the bytes are received between the 125 preliminary reply
    /// and the 226 completion reply.
    pub fn plan(&self, data_ready: bool) -> (r: TransferPlan)
        ensures
            !data_ready ==> r == TransferPlan::Refused(StatusCode::CantOpenDataConnection),
            data_ready ==> r == (TransferPlan::Proceed {
                preliminary: StatusCode::DataOpenTransfer,
                completion: StatusCode::ClosingDataConnection,
            }),
    {
        if !data_ready {
            TransferPlan::Refused(StatusCode::CantOpenDataConnection)
        } else {
            TransferPlan::Proceed {
                preliminary: StatusCode::DataOpenTransfer,
                completion: StatusCode::ClosingDataConnection,
            }
        }
    }
}

} // verus!
