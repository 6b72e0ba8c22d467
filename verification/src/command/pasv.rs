//! The PASV command: enters passive mode.
//!
//! The handler binds an ephemeral listener, replies with the encoded
//! address, and lets a background task wait for the one inbound data
//! connection; the control loop continues meanwhile. The listener work is
//! the caller's; this module decides the reply and the session transition.

use vstd::prelude::*;

use crate::command::FTPCommand;
use crate::errors::FtpError;
use crate::session::SessionState;
use crate::status_codes::StatusCode;
use crate::text::str_eq;
use crate::types::Ipv4Addr;

verus! {

/// PASV takes no arguments.
#[derive(Debug, Clone, PartialEq)]
pub struct Pasv;

impl crate::command::FTPCommand for Pasv {
    open spec fn spec_keyword() -> Seq<char> {
        "PASV"@
    }

    fn keyword() -> (r: &'static str) {
        "PASV"
    }

    fn is_keyword(command: &str) -> (r: bool) {
        str_eq(command, "PASV")
    }
}

impl Pasv {
    /// Builds the command from a parsed line, validating that no argument
    /// was given.
    pub fn try_from(command: &str, args: Vec<String>) -> (r: Result<Self, FtpError>)
        ensures
            command@ == Self::spec_keyword() && args@.len() == 0 ==> (r matches Ok(_)),
            command@ == Self::spec_keyword() && args@.len() != 0 ==> r == Err::<Pasv, FtpError>(
                FtpError::InvalidArgumentCount,
            ),
            command@ != Self::spec_keyword() ==> r == Err::<Pasv, FtpError>(
                FtpError::UnknownCommand,
            ),
    {
        if str_eq(command, "PASV") {
            if args.len() == 0 {
                Ok(Pasv)
            } else {
                Err(FtpError::InvalidArgumentCount)
            }
        } else {
            Err(FtpError::UnknownCommand)
        }
    }

    /// Splits a port into the two wire bytes of the 227 encoding:
    /// the high byte and the low byte of `port = high * 256 + low`.
    pub fn split_port(port: u16) -> (r: (u16, u16))
        ensures
            r.0 == port / 256,
            r.1 == port % 256,
    {
        (port / 256, port % 256)
    }

    /// The 227 reply announcing where the passive listener waits, with the
    /// listener's address and its port split into the wire encoding.
    pub fn reply(&self, ip: Ipv4Addr, port: u16) -> (r: StatusCode)
        ensures
            r == (StatusCode::EnteringPassiveMode {
                ip_address: ip,
                port_high: port / 256,
                port_low: port % 256,
            }),
    {
        let (port_high, port_low) = Self::split_port(port);
        StatusCode::EnteringPassiveMode { ip_address: ip, port_high, port_low }
    }

    /// Marks the session as waiting for the passive accept; the caller's
    /// background task installs the connection once the client arrives.
    pub fn execute(&self, session: &mut SessionState)
        ensures
            final(session)@.data == crate::session::DataChannel::Pending,
            final(session)@.cwd == old(session)@.cwd,
            final(session)@.system == old(session)@.system,
    {
        session.expect_data_connection();
    }
}

/// The 227 encoding round-trips: the port a client reconstructs as
/// `high * 256 + low` is exactly the port the listener was bound to.
pub proof fn lemma_pasv_port_round_trip(port: u16)
    ensures
        (port / 256) * 256 + (port % 256) == port,
{
    assert((port / 256) * 256 + (port % 256) == port) by (nonlinear_arith);
}

} // verus!
