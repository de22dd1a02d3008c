//! A streaming CSV row parser.
//!
//! The parser consumes decoded characters (or raw bytes) incrementally and
//! produces rows of fields, one delimited line at a time. It tolerates
//! partial input: a `next_row` call that runs out of buffered characters
//! pauses and resumes exactly where it left off once more input is fed.
//!
//! There is no quoting, no escaping and no multi-byte delimiter: a row is
//! what stands before a line feed, a field what stands between delimiters,
//! and a carriage return is discarded wherever it appears.

pub mod laws;
pub mod model;
pub mod parser;

pub use model::{ScanOutcome, State};
pub use parser::{init, Parser, Row, RowOutcome};
