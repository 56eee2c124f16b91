//! Command-line arguments of the export tool. Parsing the command line is
//! the application's job; the library only carries the parsed values.

use vstd::prelude::*;

verus! {

/// The tool's arguments: the directory the attachments are exported to.
pub struct Args {
    pub target_directory: String,
}

} // verus!
