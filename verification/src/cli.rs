//! The options the surrounding command-line tool hands to the library: the
//! source path to read and the destination path to write.

use vstd::prelude::*;

verus! {

/// The two required arguments of the tool: the CSV file to read and convert,
/// and the file to save the result to.
pub struct Opt {
    /// Path of the CSV file whose text column is converted.
    pub infile: String,
    /// Path of the file the converted table is written to.
    pub outfile: String,
}

} // verus!
