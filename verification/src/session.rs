//! Per-connection session state: the current working directory and the state
//! of the one data channel a session may hold.
//!
//! The session owns at most one data channel at a time: installing a new one
//! replaces whatever was there, and a transfer consumes it exactly once. The
//! sockets themselves live with the caller; the session tracks the state the
//! command handlers decide on.

use vstd::prelude::*;

use crate::errors::FtpError;
use crate::types::SystemType;

verus! {

/// The state of a session's data channel.
///
/// PASV moves it to `Pending` (a listener waits for the client); the accept
/// task or a PORT command moves it to `Ready`; the next data-bearing command
/// consumes it back to `Absent`.
#[derive(Debug, Clone, Copy, PartialEq, Eq, Structural)]
pub enum DataChannel {
    /// No data connection exists and none is expected.
    Absent,
    /// A passive listener waits for the client to connect.
    Pending,
    /// A data connection is established and unconsumed.
    Ready,
}

/// How long a data-bearing command keeps polling for a pending data
/// connection before it gives up.
pub const DATA_WAIT_MAX_ATTEMPTS: u32 = 20;

/// The decision a data-bearing command takes while waiting for the data
/// channel.
#[derive(Debug, Clone, Copy, PartialEq, Eq, Structural)]
pub enum DataWait {
    /// The data connection is installed; proceed with the transfer.
    Ready,
    /// Not there yet; back off briefly and poll again.
    Retry,
    /// The attempt budget is spent; report failure instead of blocking
    /// forever.
    GiveUp,
}

/// The abstract value of a session: its working directory, data-channel
/// state, and the reported host system.
pub struct SessionV {
    pub cwd: Seq<char>,
    pub data: DataChannel,
    pub system: SystemType,
}

/// Per-client session state.
pub struct SessionState {
    cwd: String,
    data: DataChannel,
    system: SystemType,
}

/// Resolves a directory argument against a base directory: an absolute
/// argument replaces the base, a relative one is appended behind a single
/// separator.
pub open spec fn spec_join_path(base: Seq<char>, arg: Seq<char>) -> Seq<char> {
    if arg.len() > 0 && arg[0] == '/' {
        arg
    } else if base.len() > 0 && base[base.len() - 1] == '/' {
        base + arg
    } else {
        base + "/"@ + arg
    }
}

/// The directory-change transition: commits the resolved directory exactly
/// when it exists, and otherwise leaves the session untouched.
pub open spec fn spec_change_dir(s: SessionV, dir: Seq<char>, dir_exists: bool) -> (SessionV, bool) {
    if dir_exists {
        (SessionV { cwd: spec_join_path(s.cwd, dir), data: s.data, system: s.system }, true)
    } else {
        (s, false)
    }
}

/// The polling decision for a data-bearing command: proceed once the channel
/// is ready, retry while attempts remain, give up when the budget is spent.
pub open spec fn spec_poll_data(data: DataChannel, attempts: u32) -> DataWait {
    if data is Ready {
        DataWait::Ready
    } else if attempts < DATA_WAIT_MAX_ATTEMPTS {
        DataWait::Retry
    } else {
        DataWait::GiveUp
    }
}

impl View for SessionState {
    type V = SessionV;

    closed spec fn view(&self) -> SessionV {
        SessionV { cwd: self.cwd@, data: self.data, system: self.system }
    }
}

/// Resolves a directory argument against a base directory.
pub fn join_path(base: &str, arg: &str) -> (r: String)
    ensures
        r@ == spec_join_path(base@, arg@),
{
    let arg_len = arg.unicode_len();
    if arg_len > 0 && arg.get_char(0) == '/' {
        arg.to_owned()
    } else {
        let base_len = base.unicode_len();
        let mut r = base.to_owned();
        if !(base_len > 0 && base.get_char(base_len - 1) == '/') {
            r.append("/");
        }
        r.append(arg);
        r
    }
}

impl SessionState {
    /// A fresh session: the given working directory, no data channel.
    pub fn new(cwd: String, system: SystemType) -> (r: Self)
        ensures
            r@.cwd == cwd@,
            r@.data == DataChannel::Absent,
            r@.system == system,
    {
        SessionState { cwd, data: DataChannel::Absent, system }
    }

    /// The current working directory.
    pub fn cwd(&self) -> (r: String)
        ensures
            r@ == self@.cwd,
    {
        self.cwd.clone()
    }

    /// The host system this session reports.
    pub fn system(&self) -> (r: SystemType)
        ensures
            r == self@.system,
    {
        self.system
    }

    /// The state of the data channel.
    pub fn data_channel(&self) -> (r: DataChannel)
        ensures
            r == self@.data,
    {
        self.data
    }

    /// Resolves `dir` against the working directory and commits the result
    /// exactly when the caller reports that the resolved directory exists;
    /// otherwise the session is left unchanged and the change is refused.
    pub fn change_dir(&mut self, dir: &str, dir_exists: bool) -> (r: Result<(), FtpError>)
        ensures
            final(self)@ == spec_change_dir(old(self)@, dir@, dir_exists).0,
            r is Ok <==> dir_exists,
            r matches Err(e) ==> e == FtpError::InvalidDirectory,
    {
        if dir_exists {
            let joined = join_path(self.cwd.as_str(), dir);
            self.cwd = joined;
            Ok(())
        } else {
            Err(FtpError::InvalidDirectory)
        }
    }

    /// Records that a passive listener now waits for the client; any earlier
    /// data channel is replaced.
    pub fn expect_data_connection(&mut self)
        ensures
            final(self)@.data == DataChannel::Pending,
            final(self)@.cwd == old(self)@.cwd,
            final(self)@.system == old(self)@.system,
    {
        self.data = DataChannel::Pending;
    }

    /// Installs an established data connection; any earlier data channel is
    /// replaced.
    pub fn attach_data_connection(&mut self)
        ensures
            final(self)@.data == DataChannel::Ready,
            final(self)@.cwd == old(self)@.cwd,
            final(self)@.system == old(self)@.system,
    {
        self.data = DataChannel::Ready;
    }

    /// Consumes the data channel for one transfer. Returns whether one was
    /// ready; when none is, the session is unchanged, so a command can keep
    /// polling while the passive accept is still in flight.
    pub fn take_data_connection(&mut self) -> (had: bool)
        ensures
            had == (old(self)@.data == DataChannel::Ready),
            had ==> final(self)@ == (SessionV {
                data: DataChannel::Absent,
                ..old(self)@
            }),
            !had ==> final(self)@ == old(self)@,
    {
        match self.data {
            DataChannel::Ready => {
                self.data = DataChannel::Absent;
                true
            },
            _ => false,
        }
    }

    /// The polling decision for a data-bearing command after `attempts`
    /// fruitless polls.
    pub fn poll_data_connection(&self, attempts: u32) -> (r: DataWait)
        ensures
            r == spec_poll_data(self@.data, attempts),
    {
        match self.data {
            DataChannel::Ready => DataWait::Ready,
            _ => {
                if attempts < DATA_WAIT_MAX_ATTEMPTS {
                    DataWait::Retry
                } else {
                    DataWait::GiveUp
                }
            },
        }
    }
}

/// A refused directory change leaves the whole session — and with it the
/// reply a later PWD renders — exactly as it was.
pub proof fn lemma_cwd_failure_preserves_session(s: SessionV, dir: Seq<char>)
    ensures
        spec_change_dir(s, dir, false).0 == s,
        !spec_change_dir(s, dir, false).1,
{
}

/// The wait for a pending data connection is bounded: once the attempt
/// budget is spent the policy never asks for another retry, whatever the
/// channel state.
pub proof fn lemma_data_wait_bounded(data: DataChannel, attempts: u32)
    requires
        attempts >= DATA_WAIT_MAX_ATTEMPTS,
    ensures
        spec_poll_data(data, attempts) != DataWait::Retry,
{
}

/// As soon as the data connection is installed, the very next poll reports
/// it ready, whatever the attempt count: a command issued right after PASV
/// succeeds once the client opens the data socket.
pub proof fn lemma_data_wait_succeeds(attempts: u32)
    ensures
        spec_poll_data(DataChannel::Ready, attempts) == DataWait::Ready,
{
}

} // verus!
