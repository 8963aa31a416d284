//! A client for a long-lived `exiftool` process driven through its stay-open
//! command protocol.
//!
//! The crate holds the protocol itself: how a request is laid out as argument
//! lines, how a response is cut out of the output stream, how diagnostic lines
//! are gathered and turned into errors, and how structured answers are taken
//! apart. It performs no input or output. A caller owns the process and its
//! pipes, carries out the actions these functions ask for, and hands back what
//! the process answered.

pub mod binary;
pub mod command;
pub mod diagnostics;
pub mod drain;
pub mod error;
pub mod framer;
pub mod json;
pub mod lines;
pub mod monitor;
pub mod parse_fn;
pub mod query;
pub mod session;
pub mod structs;
pub mod text;
pub mod typed;

pub use crate::error::ExifToolError;
