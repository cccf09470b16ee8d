//! The commands of the program, as plain data.

use vstd::prelude::*;

verus! {

/// A parsed command line.
pub struct Cli {
    pub command: Commands,
}

/// What the program is asked to do.
pub enum Commands {
    /// Build the site from `input` into `output`, removing `output` first when
    /// `clean` is set.
    Build { input: String, output: String, clean: bool },
    /// Serve `dir` on `host:port`, building it from `input` first when `build`
    /// is set.
    Serve { dir: String, port: u16, host: String, build: bool, input: String },
    /// Remove `output`.
    Clean { output: String },
}

/// Runs commands; the program around the library drives it.
pub struct CommandHandler;

} // verus!
