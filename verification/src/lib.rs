//! A verified FTP control-protocol engine: line parsing, the status-code
//! catalog, command construction and dispatch decisions, per-session state,
//! and the formatting of directory listings.
//!
//! Everything that touches a socket, the filesystem, or the clock lives in
//! the surrounding application; this crate holds the logic and proves its
//! contracts.

pub mod cli;
pub mod command;
pub mod connection;
pub mod errors;
pub mod listing;
pub mod parser;
pub mod session;
pub mod status_codes;
pub mod text;
pub mod transfer;
pub mod types;

pub use command::Command;
pub use connection::LineVerdict;
pub use errors::FtpError;
pub use session::{DataChannel, DataWait, SessionState};
pub use status_codes::StatusCode;
pub use transfer::TransferPlan;
pub use types::{Ipv4Addr, System, SystemType};
