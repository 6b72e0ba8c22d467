//! The connection actor's per-line decision: read one control line, parse
//! it, construct and hand back the command — or close on a peer fault, or
//! refuse an unusable line without ending the session.

use vstd::prelude::*;

use crate::command::{command_matches, spec_constructible, Command};
use crate::errors::FtpError;
use crate::parser::{cmd_parser, spec_tokens};
use crate::status_codes::StatusCode;

verus! {

/// The reply a recoverable command error is turned into at the dispatch
/// boundary.
pub open spec fn spec_error_reply(e: FtpError) -> StatusCode {
    match e {
        FtpError::UnknownCommand => StatusCode::CmdNotImplemented,
        FtpError::InvalidArgumentCount => StatusCode::CmdNotImplemented,
        FtpError::InvalidArgument => StatusCode::CmdNotImplemented,
        FtpError::InvalidDirectory => StatusCode::FileActionNotTaken,
        FtpError::MissingDataConnection => StatusCode::CantOpenDataConnection,
        FtpError::EmptyLine => StatusCode::ServiceClosingControlConnection,
    }
}

/// Turns a recoverable command error into its status reply; such errors
/// never unwind past the connection loop. The empty-line condition is fatal
/// and gets no reply, so it is left out.
pub fn error_reply(e: FtpError) -> (r: StatusCode)
    requires
        e != FtpError::EmptyLine,
    ensures
        r == spec_error_reply(e),
        r.renderable(),
{
    match e {
        FtpError::InvalidDirectory => StatusCode::FileActionNotTaken,
        FtpError::MissingDataConnection => StatusCode::CantOpenDataConnection,
        FtpError::EmptyLine => StatusCode::ServiceClosingControlConnection,
        _ => StatusCode::CmdNotImplemented,
    }
}

/// What the connection loop does with one control line.
#[derive(Debug, Clone, PartialEq)]
pub enum LineVerdict {
    /// The line held no token: treat it as a peer fault and terminate the
    /// connection.
    Close,
    /// A command was constructed; execute it, then reply.
    Execute(Command),
    /// The line parsed but constructs no command; reply 502 and keep the
    /// connection.
    Reject(StatusCode),
}

/// The greeting written when a connection is accepted, before any command
/// is read.
pub fn greeting() -> (r: StatusCode)
    ensures
        r == StatusCode::ServiceReadyUser,
{
    StatusCode::ServiceReadyUser
}

/// Decides what to do with one control line, stripped of its trailing
/// newline: an empty line closes the connection; a recognizable line yields
/// its command; anything else is refused with 502.
pub fn handle_line(line: &str) -> (r: LineVerdict)
    ensures
        ({
            let ts = spec_tokens(line@);
            &&& (r is Close <==> ts.len() == 0)
            &&& (ts.len() > 0 && spec_constructible(ts[0], ts.skip(1)) ==> (r matches
                LineVerdict::Execute(c) && command_matches(c, ts[0], ts.skip(1))))
            &&& (ts.len() > 0 && !spec_constructible(ts[0], ts.skip(1)) ==> (r matches
                LineVerdict::Reject(s) && s == StatusCode::CmdNotImplemented))
        }),
{
    match cmd_parser(line) {
        None => LineVerdict::Close,
        Some((kw, args)) => {
            match Command::try_from(kw.as_str(), args) {
                Ok(c) => LineVerdict::Execute(c),
                Err(_) => LineVerdict::Reject(StatusCode::CmdNotImplemented),
            }
        },
    }
}

} // verus!
