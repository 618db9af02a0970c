//! Values of the database in the form in which columns and binds hold them.

pub mod date;
pub mod interval;
pub mod number;
pub mod raw;
pub mod timestamp;
pub mod varchar;
