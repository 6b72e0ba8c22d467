//! The RETR command: sends a file to the client over the data channel.

use vstd::prelude::*;

use crate::command::FTPCommand;
use crate::errors::FtpError;
use crate::session::{spec_join_path, SessionState};
use crate::status_codes::StatusCode;
use crate::text::str_eq;
use crate::transfer::TransferPlan;

verus! {

/// RETR with the cwd-relative name of the file to send.
#[derive(Debug, Clone, PartialEq)]
pub struct Retr(pub String);

impl crate::command::FTPCommand for Retr {
    open spec fn spec_keyword() -> Seq<char> {
        "RETR"@
    }

    fn keyword() -> (r: &'static str) {
        "RETR"
    }

    fn is_keyword(command: &str) -> (r: bool) {
        str_eq(command, "RETR")
    }
}

impl Retr {
    /// Builds the command from a parsed line, validating the single
    /// file-name argument.
    pub fn try_from(command: &str, args: Vec<String>) -> (r: Result<Self, FtpError>)
        ensures
            command@ == Self::spec_keyword() && args@.len() == 1 ==> (r matches Ok(c) && c.0
                == args@[0]),
            command@ == Self::spec_keyword() && args@.len() != 1 ==> r == Err::<Retr, FtpError>(
                FtpError::InvalidArgumentCount,
            ),
            command@ != Self::spec_keyword() ==> r == Err::<Retr, FtpError>(
                FtpError::UnknownCommand,
            ),
    {
        if str_eq(command, "RETR") {
            if args.len() == 1 {
                let mut args = args;
                Ok(Retr(args.remove(0)))
            } else {
                Err(FtpError::InvalidArgumentCount)
            }
        } else {
            Err(FtpError::UnknownCommand)
        }
    }

    /// The file the argument resolves to against the session's working
    /// directory; the caller opens it on the real filesystem.
    pub fn source(&self, session: &SessionState) -> (r: String)
        ensures
            r@ == spec_join_path(session@.cwd, self.0@),
    {
        let cwd = session.cwd();
        crate::session::join_path(cwd.as_str(), self.0.as_str())
    }

    /// Decides the transfer. A missing file is refused with 450 before the
    /// data channel is touched; a missing data connection is refused with
    /// 425; otherwise the transfer runs between the 125 preliminary reply
    /// and the 226 completion reply.
    pub fn plan(&self, file_exists: bool, data_ready: bool) -> (r: TransferPlan)
        ensures
            !file_exists ==> r == TransferPlan::Refused(StatusCode::FileActionNotTaken),
            file_exists && !data_ready ==> r == TransferPlan::Refused(
                StatusCode::CantOpenDataConnection,
            ),
            file_exists && data_ready ==> r == (TransferPlan::Proceed {
                preliminary: StatusCode::DataOpenTransfer,
                completion: StatusCode::ClosingDataConnection,
            }),
    {
        if !file_exists {
            TransferPlan::Refused(StatusCode::FileActionNotTaken)
        } else if !data_ready {
            TransferPlan::Refused(StatusCode::CantOpenDataConnection)
        } else {
            TransferPlan::Proceed {
                preliminary: StatusCode::DataOpenTransfer,
                completion: StatusCode::ClosingDataConnection,
            }
        }
    }
}

} // verus!
