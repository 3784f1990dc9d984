//! Per-row transformation: rewrite the designated text column, keep every
//! other cell byte-for-byte.

use vstd::prelude::*;
use crate::pipeline::{convert, convert_spec};

verus! {

/// The index of the one column whose cells are converted.
pub const TEXT_COLUMN: usize = 1;

/// Rewrites cell `TEXT_COLUMN` of the row through `convert` and returns the
/// row otherwise unchanged: every other column of the result is the very
/// cell that came in.
pub fn convert_row(row: Vec<String>) -> (r: Vec<String>)
    requires
        row@.len() > TEXT_COLUMN,
    ensures
        r@.len() == row@.len(),
        r@[TEXT_COLUMN as int]@ == convert_spec(row@[TEXT_COLUMN as int]@),
        forall|j: int| 0 <= j < row@.len() && j != TEXT_COLUMN ==> r@[j] == row@[j],
{
    let mut row = row;
    let cell: String = row[TEXT_COLUMN].clone();
    let converted = convert(cell);
    row.set(TEXT_COLUMN, converted);
    row
}

/// Converts a whole table of data rows, one `convert_row` per row, in order:
/// the result has as many rows as came in, each row keeps its arity, cell
/// `TEXT_COLUMN` of every row is converted, and every other cell of every row
/// is the very cell that came in.
#[verifier::loop_isolation(false)]
pub fn convert_table(rows: Vec<Vec<String>>) -> (r: Vec<Vec<String>>)
    requires
        forall|i: int| 0 <= i < rows@.len() ==> #[trigger] rows@[i]@.len() > TEXT_COLUMN,
    ensures
        r@.len() == rows@.len(),
        forall|i: int| 0 <= i < rows@.len() ==> #[trigger] r@[i]@.len() == rows@[i]@.len(),
        forall|i: int| 0 <= i < rows@.len()
            ==> #[trigger] r@[i]@[TEXT_COLUMN as int]@ == convert_spec(
                rows@[i]@[TEXT_COLUMN as int]@,
            ),
        forall|i: int, j: int|
            0 <= i < rows@.len() && 0 <= j < rows@[i]@.len() && j != TEXT_COLUMN
                ==> #[trigger] r@[i]@[j] == rows@[i]@[j],
{
    let ghost orig = rows@;
    let mut rows = rows;
    let mut out: Vec<Vec<String>> = Vec::new();
    proof {
        assert(rows@ =~= orig.skip(0));
    }
    while rows.len() > 0
        invariant
            out@.len() + rows@.len() == orig.len(),
            rows@ == orig.skip(out@.len() as int),
            forall|i: int| 0 <= i < out@.len() ==> #[trigger] out@[i]@.len() == orig[i]@.len(),
            forall|i: int| 0 <= i < out@.len()
                ==> #[trigger] out@[i]@[TEXT_COLUMN as int]@ == convert_spec(
                    orig[i]@[TEXT_COLUMN as int]@,
                ),
            forall|i: int, j: int|
                0 <= i < out@.len() && 0 <= j < orig[i]@.len() && j != TEXT_COLUMN
                    ==> #[trigger] out@[i]@[j] == orig[i]@[j],
        decreases rows@.len(),
    {
        let ghost k = out@.len() as int;
        let row = rows.remove(0);
        proof {
            assert(row@ == orig[k]@);
            vstd::seq_lib::lemma_seq_skip_of_skip(orig, k, 1);
            assert(rows@ =~= orig.skip(k + 1));
        }
        let row = convert_row(row);
        out.push(row);
    }
    out
}

} // verus!
