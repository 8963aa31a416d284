//! Records for the metadata of a file, one for each group of tags.

pub mod g2;
pub mod grouped_structs;
