//! The command line.

use vstd::prelude::*;

verus! {

/// The arguments of the command line: the one file whose tree is narrated.
#[derive(Debug, Clone)]
pub struct Args {
    /// Path to file
    pub file: String,
}

} // verus!
