//! The two commands and their arguments, as plain values.

use vstd::prelude::*;

verus! {

/// Seconds a cached answer stays valid when the caller names no other span.
pub const DEFAULT_TTL: usize = 30;

/// A parsed command line.
#[derive(Debug, PartialEq, Eq)]
pub struct Cli {
    command: Commands,
}

/// What the user asked for.
#[derive(Debug, PartialEq, Eq)]
pub enum Commands {
    /// Build the index from the files under `path`.
    Index { path: String, flush_cache: bool },
    /// Answer `query`, keeping the answer in the cache for `ttl` seconds.
    Search { query: String, ttl: usize, flush_cache: bool },
}

impl View for Cli {
    type V = Commands;

    closed spec fn view(&self) -> Commands {
        self.command
    }
}

impl Cli {
    pub fn new(command: Commands) -> (r: Self)
        ensures
            r@ == command,
    {
        Self { command }
    }

    /// The command that was given.
    pub fn cmd(&self) -> (r: &Commands)
        ensures
            *r == self@,
    {
        &self.command
    }
}

} // verus!
