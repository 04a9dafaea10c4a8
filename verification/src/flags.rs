//! The command line's resolved form: which configuration file to render.
//!
//! Argument parsing, reading the file and decoding it are outside
//! concerns; they hand the library a `Config` and take an `Application`
//! back through `Config::process`.

use vstd::prelude::*;

verus! {

/// The program's flags: the path of the configuration file to use.
#[derive(Clone, Debug)]
pub struct Flags {
    pub config: String,
}

impl Flags {
    /// Wraps a configuration path.
    pub fn new(config: String) -> (f: Flags)
        ensures
            f.config == config,
    {
        Flags { config }
    }
}

} // verus!
