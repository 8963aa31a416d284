//! Readings of single values that the process writes in more than one shape.

pub mod array_or_int;
pub mod binary;
pub mod date;
pub mod datetime;
pub mod decimal;
pub mod string_list;
pub mod time;
