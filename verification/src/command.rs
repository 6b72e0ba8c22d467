//! The command framework: the closed set of supported commands, their
//! construction from a parsed line, and the dispatcher's exact success and
//! error conditions.

use vstd::prelude::*;

use crate::errors::FtpError;
use crate::parser::views;
use crate::text::{spec_is_numeral, spec_numeral_val, str_eq};

pub mod cwd;
pub mod feat;
pub mod list;
pub mod mlsd;
pub mod pass;
pub mod pasv;
pub mod port;
pub mod pwd;
pub mod quit;
pub mod rest;
pub mod retr;
pub mod stor;
pub mod syst;
pub mod type_cmd;
pub mod user;

use cwd::Cwd;
use feat::Feat;
use list::List;
use mlsd::Mlsd;
use pass::Pass;
use pasv::Pasv;
use port::{spec_port_arg_ok, spec_port_ip, spec_port_num, Port};
use pwd::Pwd;
use quit::Quit;
use rest::Rest;
use retr::Retr;
use stor::Stor;
use syst::Syst;
use type_cmd::Type;
use user::User;

verus! {

/// What every command implements: a wire keyword, and recognition of it.
/// Construction and execution keep their own shapes per command.
pub trait FTPCommand: Sized {
    /// The wire keyword of this command.
    spec fn spec_keyword() -> Seq<char>;

    /// Returns the wire keyword of this command.
    fn keyword() -> (r: &'static str)
        ensures
            r@ == Self::spec_keyword(),
    ;

    /// Whether `command` is this command's keyword.
    fn is_keyword(command: &str) -> (r: bool)
        ensures
            r == (command@ == Self::spec_keyword()),
    ;
}

/// The FTP commands this engine supports.
///
/// See RFC 959; the set is closed and extended by adding a variant.
#[derive(Debug, Clone, PartialEq)]
pub enum Command {
    User(User),
    Pass(Pass),
    Pasv(Pasv),
    Stor(Stor),
    Retr(Retr),
    Port(Port),
    Syst(Syst),
    Feat(Feat),
    Pwd(Pwd),
    Cwd(Cwd),
    Rest(Rest),
    Type(Type),
    List(List),
    Mlsd(Mlsd),
    Quit(Quit),
}

/// Whether a keyword names a supported command.
pub open spec fn spec_keyword_known(kw: Seq<char>) -> bool {
    ||| kw == User::spec_keyword()
    ||| kw == Pass::spec_keyword()
    ||| kw == Pasv::spec_keyword()
    ||| kw == Stor::spec_keyword()
    ||| kw == Retr::spec_keyword()
    ||| kw == Port::spec_keyword()
    ||| kw == Syst::spec_keyword()
    ||| kw == Feat::spec_keyword()
    ||| kw == Pwd::spec_keyword()
    ||| kw == Cwd::spec_keyword()
    ||| kw == Rest::spec_keyword()
    ||| kw == Type::spec_keyword()
    ||| kw == List::spec_keyword()
    ||| kw == Mlsd::spec_keyword()
    ||| kw == Quit::spec_keyword()
}

/// Whether the argument count fits the keyword's arity.
pub open spec fn spec_arity_ok(kw: Seq<char>, args: Seq<Seq<char>>) -> bool {
    if kw == Pass::spec_keyword() {
        args.len() <= 1
    } else if kw == List::spec_keyword() || kw == Mlsd::spec_keyword() {
        true
    } else if kw == User::spec_keyword() || kw == Stor::spec_keyword() || kw
        == Retr::spec_keyword() || kw == Port::spec_keyword() || kw == Cwd::spec_keyword() || kw
        == Rest::spec_keyword() || kw == Type::spec_keyword() {
        args.len() == 1
    } else {
        args.len() == 0
    }
}

/// Whether the arguments, beyond their count, have the shape the keyword
/// demands.
pub open spec fn spec_shape_ok(kw: Seq<char>, args: Seq<Seq<char>>) -> bool {
    if kw == Type::spec_keyword() {
        args[0].len() > 0
    } else if kw == Rest::spec_keyword() {
        spec_is_numeral(args[0]) && spec_numeral_val(args[0]) <= u64::MAX
    } else if kw == Port::spec_keyword() {
        spec_port_arg_ok(args[0])
    } else {
        true
    }
}

/// Whether a parsed line constructs a command.
pub open spec fn spec_constructible(kw: Seq<char>, args: Seq<Seq<char>>) -> bool {
    spec_keyword_known(kw) && spec_arity_ok(kw, args) && spec_shape_ok(kw, args)
}

/// The error a line that constructs no command is refused with.
pub open spec fn spec_construct_error(kw: Seq<char>, args: Seq<Seq<char>>) -> FtpError {
    if !spec_keyword_known(kw) {
        FtpError::UnknownCommand
    } else if !spec_arity_ok(kw, args) {
        FtpError::InvalidArgumentCount
    } else {
        FtpError::InvalidArgument
    }
}

/// Whether `c` is exactly the command that the keyword and arguments
/// construct.
pub open spec fn command_matches(c: Command, kw: Seq<char>, args: Seq<Seq<char>>) -> bool {
    match c {
        Command::User(x) => kw == User::spec_keyword() && args.len() == 1 && x.0@ == args[0],
        Command::Pass(x) => kw == Pass::spec_keyword() && ((args.len() == 0 && x.0@
            == "anonymous"@) || (args.len() == 1 && x.0@ == args[0])),
        Command::Pasv(_) => kw == Pasv::spec_keyword() && args.len() == 0,
        Command::Stor(x) => kw == Stor::spec_keyword() && args.len() == 1 && x.0@ == args[0],
        Command::Retr(x) => kw == Retr::spec_keyword() && args.len() == 1 && x.0@ == args[0],
        Command::Port(x) => kw == Port::spec_keyword() && args.len() == 1 && spec_port_arg_ok(
            args[0],
        ) && x.ip == spec_port_ip(args[0]) && x.port == spec_port_num(args[0]),
        Command::Syst(_) => kw == Syst::spec_keyword() && args.len() == 0,
        Command::Feat(_) => kw == Feat::spec_keyword() && args.len() == 0,
        Command::Pwd(_) => kw == Pwd::spec_keyword() && args.len() == 0,
        Command::Cwd(x) => kw == Cwd::spec_keyword() && args.len() == 1 && x.0@ == args[0],
        Command::Rest(x) => kw == Rest::spec_keyword() && args.len() == 1 && spec_is_numeral(
            args[0],
        ) && spec_numeral_val(args[0]) <= u64::MAX && x.0 == spec_numeral_val(args[0]),
        Command::Type(x) => kw == Type::spec_keyword() && args.len() == 1 && args[0].len() > 0
            && x.0 == args[0][0],
        Command::List(x) => kw == List::spec_keyword() && views(x.0@) == args,
        Command::Mlsd(x) => kw == Mlsd::spec_keyword() && views(x.0@) == args,
        Command::Quit(_) => kw == Quit::spec_keyword() && args.len() == 0,
    }
}

/// The wire keywords, spelled out character by character, so that any two
/// distinct keywords are provably distinct wherever the dispatch specs
/// compare them.
pub proof fn lemma_keyword_chars()
    ensures
        "USER"@.len() == 4,
        "USER"@[0] == 'U',
        "USER"@[1] == 'S',
        "USER"@[2] == 'E',
        "USER"@[3] == 'R',
        "PASS"@.len() == 4,
        "PASS"@[0] == 'P',
        "PASS"@[1] == 'A',
        "PASS"@[2] == 'S',
        "PASS"@[3] == 'S',
        "PASV"@.len() == 4,
        "PASV"@[0] == 'P',
        "PASV"@[1] == 'A',
        "PASV"@[2] == 'S',
        "PASV"@[3] == 'V',
        "STOR"@.len() == 4,
        "STOR"@[0] == 'S',
        "STOR"@[1] == 'T',
        "STOR"@[2] == 'O',
        "STOR"@[3] == 'R',
        "RETR"@.len() == 4,
        "RETR"@[0] == 'R',
        "RETR"@[1] == 'E',
        "RETR"@[2] == 'T',
        "RETR"@[3] == 'R',
        "PORT"@.len() == 4,
        "PORT"@[0] == 'P',
        "PORT"@[1] == 'O',
        "PORT"@[2] == 'R',
        "PORT"@[3] == 'T',
        "SYST"@.len() == 4,
        "SYST"@[0] == 'S',
        "SYST"@[1] == 'Y',
        "SYST"@[2] == 'S',
        "SYST"@[3] == 'T',
        "FEAT"@.len() == 4,
        "FEAT"@[0] == 'F',
        "FEAT"@[1] == 'E',
        "FEAT"@[2] == 'A',
        "FEAT"@[3] == 'T',
        "PWD"@.len() == 3,
        "PWD"@[0] == 'P',
        "PWD"@[1] == 'W',
        "PWD"@[2] == 'D',
        "CWD"@.len() == 3,
        "CWD"@[0] == 'C',
        "CWD"@[1] == 'W',
        "CWD"@[2] == 'D',
        "REST"@.len() == 4,
        "REST"@[0] == 'R',
        "REST"@[1] == 'E',
        "REST"@[2] == 'S',
        "REST"@[3] == 'T',
        "TYPE"@.len() == 4,
        "TYPE"@[0] == 'T',
        "TYPE"@[1] == 'Y',
        "TYPE"@[2] == 'P',
        "TYPE"@[3] == 'E',
        "LIST"@.len() == 4,
        "LIST"@[0] == 'L',
        "LIST"@[1] == 'I',
        "LIST"@[2] == 'S',
        "LIST"@[3] == 'T',
        "MLSD"@.len() == 4,
        "MLSD"@[0] == 'M',
        "MLSD"@[1] == 'L',
        "MLSD"@[2] == 'S',
        "MLSD"@[3] == 'D',
        "QUIT"@.len() == 4,
        "QUIT"@[0] == 'Q',
        "QUIT"@[1] == 'U',
        "QUIT"@[2] == 'I',
        "QUIT"@[3] == 'T',
{
    reveal_strlit("USER");
    reveal_strlit("PASS");
    reveal_strlit("PASV");
    reveal_strlit("STOR");
    reveal_strlit("RETR");
    reveal_strlit("PORT");
    reveal_strlit("SYST");
    reveal_strlit("FEAT");
    reveal_strlit("PWD");
    reveal_strlit("CWD");
    reveal_strlit("REST");
    reveal_strlit("TYPE");
    reveal_strlit("LIST");
    reveal_strlit("MLSD");
    reveal_strlit("QUIT");
}

impl Command {
    /// Looks the keyword up and constructs the matching command, validating
    /// the arguments; a line that constructs no command is refused with the
    /// exact reason.
    pub fn try_from(command: &str, args: Vec<String>) -> (r: Result<Command, FtpError>)
        ensures
            r matches Ok(c) ==> command_matches(c, command@, views(args@)),
            r is Ok <==> spec_constructible(command@, views(args@)),
            r matches Err(e) ==> e == spec_construct_error(command@, views(args@)),
    {
        proof {
            lemma_keyword_chars();
        }
        if str_eq(command, "USER") {
            match User::try_from(command, args) {
                Ok(c) => Ok(Command::User(c)),
                Err(e) => Err(e),
            }
        } else if str_eq(command, "PASS") {
            match Pass::try_from(command, args) {
                Ok(c) => Ok(Command::Pass(c)),
                Err(e) => Err(e),
            }
        } else if str_eq(command, "PASV") {
            match Pasv::try_from(command, args) {
                Ok(c) => Ok(Command::Pasv(c)),
                Err(e) => Err(e),
            }
        } else if str_eq(command, "STOR") {
            match Stor::try_from(command, args) {
                Ok(c) => Ok(Command::Stor(c)),
                Err(e) => Err(e),
            }
        } else if str_eq(command, "RETR") {
            match Retr::try_from(command, args) {
                Ok(c) => Ok(Command::Retr(c)),
                Err(e) => Err(e),
            }
        } else if str_eq(command, "PORT") {
            match Port::try_from(command, args) {
                Ok(c) => Ok(Command::Port(c)),
                Err(e) => Err(e),
            }
        } else if str_eq(command, "SYST") {
            match Syst::try_from(command, args) {
                Ok(c) => Ok(Command::Syst(c)),
                Err(e) => Err(e),
            }
        } else if str_eq(command, "FEAT") {
            match Feat::try_from(command, args) {
                Ok(c) => Ok(Command::Feat(c)),
                Err(e) => Err(e),
            }
        } else if str_eq(command, "PWD") {
            match Pwd::try_from(command, args) {
                Ok(c) => Ok(Command::Pwd(c)),
                Err(e) => Err(e),
            }
        } else if str_eq(command, "CWD") {
            match Cwd::try_from(command, args) {
                Ok(c) => Ok(Command::Cwd(c)),
                Err(e) => Err(e),
            }
        } else if str_eq(command, "REST") {
            match Rest::try_from(command, args) {
                Ok(c) => Ok(Command::Rest(c)),
                Err(e) => Err(e),
            }
        } else if str_eq(command, "TYPE") {
            match Type::try_from(command, args) {
                Ok(c) => Ok(Command::Type(c)),
                Err(e) => Err(e),
            }
        } else if str_eq(command, "LIST") {
            match List::try_from(command, args) {
                Ok(c) => Ok(Command::List(c)),
                Err(e) => Err(e),
            }
        } else if str_eq(command, "MLSD") {
            match Mlsd::try_from(command, args) {
                Ok(c) => Ok(Command::Mlsd(c)),
                Err(e) => Err(e),
            }
        } else if str_eq(command, "QUIT") {
            match Quit::try_from(command, args) {
                Ok(c) => Ok(Command::Quit(c)),
                Err(e) => Err(e),
            }
        } else {
            Err(FtpError::UnknownCommand)
        }
    }

    /// Whether this command ends the session once its reply is written.
    pub fn closes_connection(&self) -> (r: bool)
        ensures
            r == (self is Quit),
    {
        match self {
            Command::Quit(_) => true,
            _ => false,
        }
    }
}

} // verus!
