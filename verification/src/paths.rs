//! The pre-flight check on file paths: both the source and the destination
//! path must name a `.csv` file. Only the name is examined, never the
//! contents.

use vstd::prelude::*;

verus! {

/// The error for a path whose extension is not `.csv`.
#[derive(Clone, Copy, Debug, PartialEq, Eq, Structural)]
pub struct FormatError;

/// The text after the final `.` of the path is exactly `csv` — that is, the
/// path ends in `.csv` (the extension itself contains no further `.`).
pub open spec fn is_csv_path(s: Seq<char>) -> bool {
    s.len() >= 4 && s[s.len() - 4] == '.' && s[s.len() - 3] == 'c' && s[s.len() - 2] == 's'
        && s[s.len() - 1] == 'v'
}

/// Accepts exactly the paths whose extension — the text after the final `.`
/// — is `csv`; any other path is a `FormatError`.
pub fn file_is_csv(filename: &str) -> (r: Result<(), FormatError>)
    ensures
        r is Ok <==> is_csv_path(filename@),
{
    let n = filename.unicode_len();
    if n >= 4 && filename.get_char(n - 4) == '.' && filename.get_char(n - 3) == 'c'
        && filename.get_char(n - 2) == 's' && filename.get_char(n - 1) == 'v' {
        Ok(())
    } else {
        Err(FormatError)
    }
}

} // verus!
