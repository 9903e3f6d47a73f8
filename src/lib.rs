//! Relational comparison operators (`!=`, `<`, `<=`, `==`, `>=`, `>`) as a
//! small value type: parsed from text or bytes, rendered back to their
//! canonical text, and applied to any two values of an ordered type.
mod cmp;
mod error;
pub mod laws;

pub use cmp::{is_ascii_space, parse, token, trim, trim_end, trim_start, ComparisonOperator};
pub use error::{error_message, Error};
