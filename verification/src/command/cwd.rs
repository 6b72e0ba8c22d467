//! The CWD command: changes the working directory.

use vstd::prelude::*;

use crate::command::FTPCommand;
use crate::errors::FtpError;
use crate::session::{spec_change_dir, spec_join_path, SessionState};
use crate::status_codes::StatusCode;
use crate::text::str_eq;

verus! {

/// CWD with the directory argument, relative to the working directory or
/// absolute.
#[derive(Debug, Clone, PartialEq)]
pub struct Cwd(pub String);

impl crate::command::FTPCommand for Cwd {
    open spec fn spec_keyword() -> Seq<char> {
        "CWD"@
    }

    fn keyword() -> (r: &'static str) {
        "CWD"
    }

    fn is_keyword(command: &str) -> (r: bool) {
        str_eq(command, "CWD")
    }
}

impl Cwd {
    /// Builds the command from a parsed line, validating the single
    /// directory argument.
    pub fn try_from(command: &str, args: Vec<String>) -> (r: Result<Self, FtpError>)
        ensures
            command@ == Self::spec_keyword() && args@.len() == 1 ==> (r matches Ok(c) && c.0
                == args@[0]),
            command@ == Self::spec_keyword() && args@.len() != 1 ==> r == Err::<Cwd, FtpError>(
                FtpError::InvalidArgumentCount,
            ),
            command@ != Self::spec_keyword() ==> r == Err::<Cwd, FtpError>(
                FtpError::UnknownCommand,
            ),
    {
        if str_eq(command, "CWD") {
            if args.len() == 1 {
                let mut args = args;
                Ok(Cwd(args.remove(0)))
            } else {
                Err(FtpError::InvalidArgumentCount)
            }
        } else {
            Err(FtpError::UnknownCommand)
        }
    }

    /// The directory the argument resolves to against the session's working
    /// directory; the caller checks its existence on the real filesystem.
    pub fn target(&self, session: &SessionState) -> (r: String)
        ensures
            r@ == spec_join_path(session@.cwd, self.0@),
    {
        let cwd = session.cwd();
        crate::session::join_path(cwd.as_str(), self.0.as_str())
    }

    /// Commits the directory change exactly when the caller reports that the
    /// resolved directory exists; a refused change leaves the session — and
    /// with it any later PWD reply — unchanged.
    pub fn execute(&self, session: &mut SessionState, dir_exists: bool) -> (r: Result<
        StatusCode,
        FtpError,
    >)
        ensures
            final(session)@ == spec_change_dir(old(session)@, self.0@, dir_exists).0,
            dir_exists ==> (r matches Ok(s) && s matches StatusCode::FileActionOk(m) && m@
                == "Directory successfully changed"@),
            !dir_exists ==> r == Err::<StatusCode, FtpError>(FtpError::InvalidDirectory),
    {
        match session.change_dir(self.0.as_str(), dir_exists) {
            Ok(_) => Ok(
                StatusCode::FileActionOk(String::from_str("Directory successfully changed")),
            ),
            Err(e) => Err(e),
        }
    }
}

} // verus!
