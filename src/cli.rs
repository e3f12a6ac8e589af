use vstd::prelude::*;

verus! {

/// Command-line options of the player: a file to open at start, and whether
/// to log at debug level.
#[derive(Debug, Default)]
pub struct Args {
    pub file: Option<String>,
    pub debug: bool,
}

} // verus!
