//! The command-line surface: every configuration setting can be given as a
//! flag, plus the switch that detaches the process before locking. The front
//! end parses the actual command line and hands the result over in this
//! shape.

use vstd::prelude::*;

use crate::config::Config;

verus! {

/// The parsed command line.
#[derive(Debug)]
pub struct Args {
    /// The settings given as flags, to be overlaid on the configuration
    /// file's.
    pub config: Config,
    /// Whether to detach from the terminal before locking the session.
    pub daemonize: bool,
}

} // verus!
