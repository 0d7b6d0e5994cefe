//! The client's command line, as plain data: which configuration to
//! load and which filesystem command to run.  Parsing the process's
//! arguments into this record happens outside the library.

use vstd::prelude::*;

verus! {

/// Everything the client takes from its command line.
#[derive(Debug, Clone)]
pub struct CliArgs {
    pub config: Option<String>,
    pub verbose: bool,
    pub command: Commands,
}

/// One filesystem command the client can run.
#[derive(Debug, Clone)]
pub enum Commands {
    Read { path: String, output: Option<String> },
    Write { path: String, input: Option<String>, data: Option<String> },
    List { path: String },
    Metadata { path: String, follow_symlinks: bool },
    Mkdir { path: String, mode: String },
    DeleteFile { path: String },
    DeleteDir { path: String },
    Move { source: String, destination: String },
    Copy { source: String, destination: String },
    Stats,
    Status,
}

} // verus!
