//! The command-line options the server starts with, and the decision taken
//! on them. Reading the process arguments and rendering help text stay with
//! the surrounding application; the decision of whether to run is made here.

use vstd::prelude::*;

verus! {

/// The server's command-line options.
#[derive(Debug, Clone, Copy, PartialEq, Eq, Structural)]
pub struct Args {
    /// Print help instead of running.
    pub help: bool,
    /// Run the interactive dashboard instead of plain logging.
    pub interactive: bool,
    /// The control-channel port to listen on.
    pub port: u16,
}

impl Args {
    /// Decides whether the server runs: when help was asked for, nothing
    /// runs (the caller prints the help text); otherwise the options are
    /// handed back unchanged.
    pub fn init_cli(help: bool, interactive: bool, port: u16) -> (r: Option<Args>)
        ensures
            help ==> r is None,
            !help ==> r == Some(Args { help, interactive, port }),
    {
        let args = Args { help, interactive, port };
        if args.help {
            return None;
        }
        Some(args)
    }
}

} // verus!
