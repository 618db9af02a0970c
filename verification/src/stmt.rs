//! Columns of a result set and the conversion of their values.

pub mod args;
pub mod cols;
pub mod cursor;
pub mod fromsql;
