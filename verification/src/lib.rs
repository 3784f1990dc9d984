//! Converts the text column of a CSV table from a rich-text markup dialect to
//! HTML-like line-break conventions.
//!
//! The core is `convert`: a pure, total rewriting pipeline over the characters
//! of one cell. Around it stand a per-row transformer that rewrites exactly
//! one designated column, and a file-extension check for the `.csv` paths the
//! surrounding command-line tool accepts.

pub mod cli;
pub mod paths;
pub mod pipeline;
pub mod rows;
pub mod steps;
pub mod tags;
pub mod text;

pub use cli::Opt;
pub use paths::{file_is_csv, FormatError};
pub use pipeline::convert;
pub use rows::{convert_row, convert_table};
