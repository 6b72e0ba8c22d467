//! The REST command: accepts a restart byte offset.

use vstd::prelude::*;

use crate::command::FTPCommand;
use crate::errors::FtpError;
use crate::status_codes::StatusCode;
use crate::text::{parse_u64, spec_is_numeral, spec_numeral_val, str_eq};

verus! {

/// REST with the accepted byte offset. The offset is acknowledged but not
/// yet applied to later transfers — a known limitation.
#[derive(Debug, Clone, PartialEq)]
pub struct Rest(pub u64);

impl crate::command::FTPCommand for Rest {
    open spec fn spec_keyword() -> Seq<char> {
        "REST"@
    }

    fn keyword() -> (r: &'static str) {
        "REST"
    }

    fn is_keyword(command: &str) -> (r: bool) {
        str_eq(command, "REST")
    }
}

impl Rest {
    /// Builds the command from a parsed line: one argument holding the
    /// decimal byte offset.
    pub fn try_from(command: &str, args: Vec<String>) -> (r: Result<Self, FtpError>)
        ensures
            command@ == Self::spec_keyword() && args@.len() == 1 && spec_is_numeral(args@[0]@)
                && spec_numeral_val(args@[0]@) <= u64::MAX ==> (r matches Ok(c) && c.0
                == spec_numeral_val(args@[0]@)),
            command@ == Self::spec_keyword() && args@.len() == 1 && !(spec_is_numeral(args@[0]@)
                && spec_numeral_val(args@[0]@) <= u64::MAX) ==> r == Err::<Rest, FtpError>(
                FtpError::InvalidArgument,
            ),
            command@ == Self::spec_keyword() && args@.len() != 1 ==> r == Err::<Rest, FtpError>(
                FtpError::InvalidArgumentCount,
            ),
            command@ != Self::spec_keyword() ==> r == Err::<Rest, FtpError>(
                FtpError::UnknownCommand,
            ),
    {
        if str_eq(command, "REST") {
            if args.len() == 1 {
                match parse_u64(args[0].as_str()) {
                    Some(offset) => Ok(Rest(offset)),
                    None => Err(FtpError::InvalidArgument),
                }
            } else {
                Err(FtpError::InvalidArgumentCount)
            }
        } else {
            Err(FtpError::UnknownCommand)
        }
    }

    /// Acknowledges the offset as pending further information.
    pub fn execute(&self) -> (r: StatusCode)
        ensures
            r == StatusCode::FileActionPending,
    {
        StatusCode::FileActionPending
    }
}

} // verus!
