//! The status-code catalog: the closed set of protocol replies, each with its
//! numeric code and its wire-format rendering.

use vstd::prelude::*;
use vstd::utf8::encode_utf8;

use crate::text::{append_dec, spec_dec};
use crate::types::{spec_system_name, Ipv4Addr, System, SystemType};

verus! {

/// The protocol replies the server can send.
///
/// The numeric codes follow RFC 959 / RFC 3659. Variants that carry a string
/// hold the dynamic part of the message; the renderer supplies the code, the
/// separating space and the trailing newline.
#[derive(Debug, Clone, PartialEq)]
pub enum StatusCode {
    /// **110** - Restart marker reply.
    RestartMarker(u64),
    /// **120** - Service ready in a few minutes.
    ServiceReadyIn,
    /// **125** - Data connection already open; transfer starting.
    DataOpenTransfer,
    /// **150** - File status okay; about to open data connection.
    FileStatusOk(String),
    /// **200** - Ok.
    Okay,
    /// **202** - Command not implemented, superfluous at this site.
    SuperfluousCmdNotImplemented,
    /// **211** - System status, or system help reply (multi-line).
    SystemStatus(String),
    /// **212** - Directory status.
    DirectoryStatus,
    /// **213** - File status.
    FileStatus,
    /// **214** - Help message.
    HelpMsg { message: String },
    /// **215** - NAME system type.
    SystemType(SystemType),
    /// **220** - Service ready for new user.
    ServiceReadyUser,
    /// **221** - Service closing control connection.
    ServiceClosingControlConnection,
    /// **225** - Data connection open; no transfer in progress.
    DataOpenNoTransfer,
    /// **226** - Closing data connection.
    ClosingDataConnection,
    /// **227** - Entering Passive Mode (h1,h2,h3,h4,p1,p2).
    EnteringPassiveMode { ip_address: Ipv4Addr, port_high: u16, port_low: u16 },
    /// **230** - User logged in, proceed.
    UserLoggedIn,
    /// **250** - Requested file action okay, completed.
    FileActionOk(String),
    /// **257** - "PATHNAME" created.
    PathCreated(String),
    /// **331** - User name okay, need password.
    UsernameOk,
    /// **332** - Need account for login.
    NeedLoginAccount,
    /// **350** - Requested file action pending further information.
    FileActionPending,
    /// **421** - Service not available, closing control connection.
    Unnavaidable,
    /// **425** - Can't open data connection.
    CantOpenDataConnection,
    /// **426** - Connection closed; transfer aborted.
    TransferAborted,
    /// **450** - Requested file action not taken.
    FileActionNotTaken,
    /// **451** - Requested action aborted: local error in processing.
    ActionAbortedLocal,
    /// **452** - Requested action not taken.
    InsufficientStorage,
    /// **500** - Syntax error, command unrecognized.
    SyntaxError,
    /// **502** - Command not implemented.
    CmdNotImplemented,
    /// **503** - Bad sequence of commands.
    CmdBadSequence,
    /// **504** - Command not implemented for that parameter.
    CmdNotImplementedParam,
    /// **530** - Not logged in.
    UserNotLoggedIn,
    /// **532** - Need account for storing files.
    NeedAccountForStore,
    /// **550** - Requested action not taken.
    ActionNotTaken,
    /// **551** - Requested action aborted: page type unknown.
    ActionAbortedPageTypeUnknown,
    /// **552** - Requested file action aborted.
    ExceededStorageAllocation,
    /// **553** - File name not allowed.
    FilenameNotAllowed,
}

impl StatusCode {
    /// The numeric code of this reply.
    pub open spec fn spec_code(self) -> u16 {
        match self {
            StatusCode::RestartMarker(_) => 110,
            StatusCode::ServiceReadyIn => 120,
            StatusCode::DataOpenTransfer => 125,
            StatusCode::FileStatusOk(_) => 150,
            StatusCode::Okay => 200,
            StatusCode::SuperfluousCmdNotImplemented => 202,
            StatusCode::SystemStatus(_) => 211,
            StatusCode::DirectoryStatus => 212,
            StatusCode::FileStatus => 213,
            StatusCode::HelpMsg { .. } => 214,
            StatusCode::SystemType(_) => 215,
            StatusCode::ServiceReadyUser => 220,
            StatusCode::ServiceClosingControlConnection => 221,
            StatusCode::DataOpenNoTransfer => 225,
            StatusCode::ClosingDataConnection => 226,
            StatusCode::EnteringPassiveMode { .. } => 227,
            StatusCode::UserLoggedIn => 230,
            StatusCode::FileActionOk(_) => 250,
            StatusCode::PathCreated(_) => 257,
            StatusCode::UsernameOk => 331,
            StatusCode::NeedLoginAccount => 332,
            StatusCode::FileActionPending => 350,
            StatusCode::Unnavaidable => 421,
            StatusCode::CantOpenDataConnection => 425,
            StatusCode::TransferAborted => 426,
            StatusCode::FileActionNotTaken => 450,
            StatusCode::ActionAbortedLocal => 451,
            StatusCode::InsufficientStorage => 452,
            StatusCode::SyntaxError => 500,
            StatusCode::CmdNotImplemented => 502,
            StatusCode::CmdBadSequence => 503,
            StatusCode::CmdNotImplementedParam => 504,
            StatusCode::UserNotLoggedIn => 530,
            StatusCode::NeedAccountForStore => 532,
            StatusCode::ActionNotTaken => 550,
            StatusCode::ActionAbortedPageTypeUnknown => 551,
            StatusCode::ExceededStorageAllocation => 552,
            StatusCode::FilenameNotAllowed => 553,
        }
    }

    /// Returns the numeric code of this reply.
    pub fn code(&self) -> (r: u16)
        ensures
            r == self.spec_code(),
    {
        match self {
            StatusCode::RestartMarker(_) => 110,
            StatusCode::ServiceReadyIn => 120,
            StatusCode::DataOpenTransfer => 125,
            StatusCode::FileStatusOk(_) => 150,
            StatusCode::Okay => 200,
            StatusCode::SuperfluousCmdNotImplemented => 202,
            StatusCode::SystemStatus(_) => 211,
            StatusCode::DirectoryStatus => 212,
            StatusCode::FileStatus => 213,
            StatusCode::HelpMsg { .. } => 214,
            StatusCode::SystemType(_) => 215,
            StatusCode::ServiceReadyUser => 220,
            StatusCode::ServiceClosingControlConnection => 221,
            StatusCode::DataOpenNoTransfer => 225,
            StatusCode::ClosingDataConnection => 226,
            StatusCode::EnteringPassiveMode { .. } => 227,
            StatusCode::UserLoggedIn => 230,
            StatusCode::FileActionOk(_) => 250,
            StatusCode::PathCreated(_) => 257,
            StatusCode::UsernameOk => 331,
            StatusCode::NeedLoginAccount => 332,
            StatusCode::FileActionPending => 350,
            StatusCode::Unnavaidable => 421,
            StatusCode::CantOpenDataConnection => 425,
            StatusCode::TransferAborted => 426,
            StatusCode::FileActionNotTaken => 450,
            StatusCode::ActionAbortedLocal => 451,
            StatusCode::InsufficientStorage => 452,
            StatusCode::SyntaxError => 500,
            StatusCode::CmdNotImplemented => 502,
            StatusCode::CmdBadSequence => 503,
            StatusCode::CmdNotImplementedParam => 504,
            StatusCode::UserNotLoggedIn => 530,
            StatusCode::NeedAccountForStore => 532,
            StatusCode::ActionNotTaken => 550,
            StatusCode::ActionAbortedPageTypeUnknown => 551,
            StatusCode::ExceededStorageAllocation => 552,
            StatusCode::FilenameNotAllowed => 553,
        }
    }

    /// Whether the catalog has a wire rendering for this reply. The set is
    /// closed and controlled by the engine, so rendering an uncovered variant
    /// is a programming error, not a client-triggered condition.
    pub open spec fn renderable(self) -> bool {
        match self {
            StatusCode::RestartMarker(_) => true,
            StatusCode::DataOpenTransfer => true,
            StatusCode::FileStatusOk(_) => true,
            StatusCode::Okay => true,
            StatusCode::SystemStatus(_) => true,
            StatusCode::HelpMsg { .. } => true,
            StatusCode::SystemType(_) => true,
            StatusCode::ServiceReadyUser => true,
            StatusCode::ServiceClosingControlConnection => true,
            StatusCode::DataOpenNoTransfer => true,
            StatusCode::ClosingDataConnection => true,
            StatusCode::EnteringPassiveMode { .. } => true,
            StatusCode::UserLoggedIn => true,
            StatusCode::FileActionOk(_) => true,
            StatusCode::PathCreated(_) => true,
            StatusCode::NeedLoginAccount => true,
            StatusCode::FileActionPending => true,
            StatusCode::CantOpenDataConnection => true,
            StatusCode::FileActionNotTaken => true,
            StatusCode::CmdNotImplemented => true,
            _ => false,
        }
    }

    /// Whether the rendering spans several lines (the continuation
    /// convention: code and hyphen on the opening line, code and END on the
    /// closing one).
    pub open spec fn is_multiline(self) -> bool {
        self is SystemStatus
    }

    /// The wire rendering of this reply.
    pub open spec fn spec_render(self) -> Seq<char> {
        match self {
            StatusCode::RestartMarker(_) => "110 Restart marker reply\n"@,
            StatusCode::DataOpenTransfer => "125 Data connection already open; transfer starting\n"@,
            StatusCode::FileStatusOk(msg) => "150 "@ + msg@ + "\n"@,
            StatusCode::Okay => "200 Ok\n"@,
            StatusCode::SystemStatus(body) => "211-"@ + body@ + "\n211 END\n"@,
            StatusCode::HelpMsg { message } => "214 "@ + message@ + "\n"@,
            StatusCode::SystemType(t) => "215 "@ + spec_system_name(t) + "\n"@,
            StatusCode::ServiceReadyUser => "220 Service ready for new user\n"@,
            StatusCode::ServiceClosingControlConnection => "221 Service closing control connection\n"@,
            StatusCode::DataOpenNoTransfer => "225 Data connection open\n"@,
            StatusCode::ClosingDataConnection => "226 Closing data connection\n"@,
            StatusCode::EnteringPassiveMode { ip_address, port_high, port_low } => (
            "227 Entering Passive Mode ("@ + spec_dec(ip_address.o1 as nat) + ","@ + spec_dec(
                ip_address.o2 as nat,
            ) + ","@ + spec_dec(ip_address.o3 as nat) + ","@ + spec_dec(ip_address.o4 as nat)
                + ","@ + spec_dec(port_high as nat) + ","@ + spec_dec(port_low as nat) + ")\n"@),
            StatusCode::UserLoggedIn => "230 User logged in, proceed\n"@,
            StatusCode::FileActionOk(msg) => "250 "@ + msg@ + "\n"@,
            StatusCode::PathCreated(path) => "257 \""@ + path@ + "\" created\n"@,
            StatusCode::NeedLoginAccount => "332 Need account for login\n"@,
            StatusCode::FileActionPending => "350 Requested file action pending further information\n"@,
            StatusCode::CantOpenDataConnection => "425 Can't open data connection\n"@,
            StatusCode::FileActionNotTaken => "450 Requested file action not taken\n"@,
            StatusCode::CmdNotImplemented => "502 Command not implemented\n"@,
            _ => Seq::empty(),
        }
    }

    /// Renders this reply as one (or, for the multi-line convention, several)
    /// newline-terminated protocol lines.
    pub fn to_string(&self) -> (r: String)
        requires
            self.renderable(),
        ensures
            r@ == self.spec_render(),
    {
        match self {
            StatusCode::RestartMarker(_) => String::from_str("110 Restart marker reply\n"),
            StatusCode::DataOpenTransfer => String::from_str(
                "125 Data connection already open; transfer starting\n",
            ),
            StatusCode::FileStatusOk(msg) => {
                let mut r = String::from_str("150 ");
                r.append(msg.as_str());
                r.append("\n");
                r
            },
            StatusCode::Okay => String::from_str("200 Ok\n"),
            StatusCode::SystemStatus(body) => {
                let mut r = String::from_str("211-");
                r.append(body.as_str());
                r.append("\n211 END\n");
                r
            },
            StatusCode::HelpMsg { message } => {
                let mut r = String::from_str("214 ");
                r.append(message.as_str());
                r.append("\n");
                r
            },
            StatusCode::SystemType(t) => {
                let mut r = String::from_str("215 ");
                r.append(System::from(*t).name());
                r.append("\n");
                r
            },
            StatusCode::ServiceReadyUser => String::from_str("220 Service ready for new user\n"),
            StatusCode::ServiceClosingControlConnection => String::from_str(
                "221 Service closing control connection\n",
            ),
            StatusCode::DataOpenNoTransfer => String::from_str("225 Data connection open\n"),
            StatusCode::ClosingDataConnection => String::from_str("226 Closing data connection\n"),
            StatusCode::EnteringPassiveMode { ip_address, port_high, port_low } => {
                let mut r = String::from_str("227 Entering Passive Mode (");
                append_dec(&mut r, ip_address.o1 as u64);
                r.append(",");
                append_dec(&mut r, ip_address.o2 as u64);
                r.append(",");
                append_dec(&mut r, ip_address.o3 as u64);
                r.append(",");
                append_dec(&mut r, ip_address.o4 as u64);
                r.append(",");
                append_dec(&mut r, *port_high as u64);
                r.append(",");
                append_dec(&mut r, *port_low as u64);
                r.append(")\n");
                r
            },
            StatusCode::UserLoggedIn => String::from_str("230 User logged in, proceed\n"),
            StatusCode::FileActionOk(msg) => {
                let mut r = String::from_str("250 ");
                r.append(msg.as_str());
                r.append("\n");
                r
            },
            StatusCode::PathCreated(path) => {
                let mut r = String::from_str("257 \"");
                r.append(path.as_str());
                r.append("\" created\n");
                r
            },
            StatusCode::NeedLoginAccount => String::from_str("332 Need account for login\n"),
            StatusCode::FileActionPending => String::from_str(
                "350 Requested file action pending further information\n",
            ),
            StatusCode::CantOpenDataConnection => String::from_str(
                "425 Can't open data connection\n",
            ),
            StatusCode::FileActionNotTaken => String::from_str(
                "450 Requested file action not taken\n",
            ),
            StatusCode::CmdNotImplemented => String::from_str("502 Command not implemented\n"),
            _ => String::new(),
        }
    }

    /// Every rendered reply begins with the three decimal digits of its
    /// numeric code; a single-line reply follows them with a space, the
    /// multi-line reply with the continuation hyphen.
    pub proof fn lemma_render_starts_with_code(self)
        requires
            self.renderable(),
        ensures
            self.spec_render().len() >= 4,
            self.spec_render().subrange(0, 3) == spec_dec(self.spec_code() as nat),
            self.spec_render()[3] == if self.is_multiline() {
                '-'
            } else {
                ' '
            },
    {
        reveal_with_fuel(spec_dec, 3);
        match self {
            StatusCode::RestartMarker(_) => {
                reveal_strlit("110 Restart marker reply\n");
                assert(self.spec_render().subrange(0, 3) =~= seq!['1', '1', '0']);
            },
            StatusCode::DataOpenTransfer => {
                reveal_strlit("125 Data connection already open; transfer starting\n");
                assert(self.spec_render().subrange(0, 3) =~= seq!['1', '2', '5']);
            },
            StatusCode::FileStatusOk(_) => {
                reveal_strlit("150 ");
                assert(self.spec_render().subrange(0, 3) =~= seq!['1', '5', '0']);
            },
            StatusCode::Okay => {
                reveal_strlit("200 Ok\n");
                assert(self.spec_render().subrange(0, 3) =~= seq!['2', '0', '0']);
            },
            StatusCode::SystemStatus(_) => {
                reveal_strlit("211-");
                assert(self.spec_render().subrange(0, 3) =~= seq!['2', '1', '1']);
            },
            StatusCode::HelpMsg { .. } => {
                reveal_strlit("214 ");
                assert(self.spec_render().subrange(0, 3) =~= seq!['2', '1', '4']);
            },
            StatusCode::SystemType(_) => {
                reveal_strlit("215 ");
                assert(self.spec_render().subrange(0, 3) =~= seq!['2', '1', '5']);
            },
            StatusCode::ServiceReadyUser => {
                reveal_strlit("220 Service ready for new user\n");
                assert(self.spec_render().subrange(0, 3) =~= seq!['2', '2', '0']);
            },
            StatusCode::ServiceClosingControlConnection => {
                reveal_strlit("221 Service closing control connection\n");
                assert(self.spec_render().subrange(0, 3) =~= seq!['2', '2', '1']);
            },
            StatusCode::DataOpenNoTransfer => {
                reveal_strlit("225 Data connection open\n");
                assert(self.spec_render().subrange(0, 3) =~= seq!['2', '2', '5']);
            },
            StatusCode::ClosingDataConnection => {
                reveal_strlit("226 Closing data connection\n");
                assert(self.spec_render().subrange(0, 3) =~= seq!['2', '2', '6']);
            },
            StatusCode::EnteringPassiveMode { .. } => {
                reveal_strlit("227 Entering Passive Mode (");
                assert(self.spec_render().subrange(0, 3) =~= seq!['2', '2', '7']);
            },
            StatusCode::UserLoggedIn => {
                reveal_strlit("230 User logged in, proceed\n");
                assert(self.spec_render().subrange(0, 3) =~= seq!['2', '3', '0']);
            },
            StatusCode::FileActionOk(_) => {
                reveal_strlit("250 ");
                assert(self.spec_render().subrange(0, 3) =~= seq!['2', '5', '0']);
            },
            StatusCode::PathCreated(_) => {
                reveal_strlit("257 \"");
                assert(self.spec_render().subrange(0, 3) =~= seq!['2', '5', '7']);
            },
            StatusCode::NeedLoginAccount => {
                reveal_strlit("332 Need account for login\n");
                assert(self.spec_render().subrange(0, 3) =~= seq!['3', '3', '2']);
            },
            StatusCode::FileActionPending => {
                reveal_strlit("350 Requested file action pending further information\n");
                assert(self.spec_render().subrange(0, 3) =~= seq!['3', '5', '0']);
            },
            StatusCode::CantOpenDataConnection => {
                reveal_strlit("425 Can't open data connection\n");
                assert(self.spec_render().subrange(0, 3) =~= seq!['4', '2', '5']);
            },
            StatusCode::FileActionNotTaken => {
                reveal_strlit("450 Requested file action not taken\n");
                assert(self.spec_render().subrange(0, 3) =~= seq!['4', '5', '0']);
            },
            StatusCode::CmdNotImplemented => {
                reveal_strlit("502 Command not implemented\n");
                assert(self.spec_render().subrange(0, 3) =~= seq!['5', '0', '2']);
            },
            _ => {},
        }
    }

    /// Renders this reply and returns its wire bytes.
    pub fn to_byte_array(&self) -> (r: Vec<u8>)
        requires
            self.renderable(),
        ensures
            r@ == encode_utf8(self.spec_render()),
    {
        let s = self.to_string();
        s.as_str().as_bytes_vec()
    }
}

} // verus!
