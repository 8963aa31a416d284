//! A tag that holds a date.

use crate::json::JsonValue;
use crate::parse_fn::datetime::{date_reading, read_date};
use vstd::prelude::*;

verus! {

/// Why a value could not be read as a date.
#[derive(Debug, PartialEq, Eq)]
pub enum DateError {
    /// The text is no date of the layout `YYYY:MM:DD`. It is carried along.
    Format(String),
    /// The value is neither a text, nor a number, nor missing.
    Kind,
}

/// Reads a value as a date of the layout `YYYY:MM:DD`. A number and a
/// missing value hold no date; a text must be one.
pub fn date(value: &JsonValue) -> (read: Result<Option<chrono::NaiveDate>, DateError>)
    ensures
        match *value {
            JsonValue::Text(text) => match date_reading(text@, "%Y:%m:%d"@) {
                Some(day) => read is Ok && read->Ok_0 == Some(day),
                None => read is Err && read->Err_0 is Format && read->Err_0->Format_0@ == text@,
            },
            JsonValue::Number(_) => read is Ok && read->Ok_0 is None,
            JsonValue::Null => read is Ok && read->Ok_0 is None,
            _ => read is Err && read->Err_0 is Kind,
        },
{
    match value {
        JsonValue::Text(text) => match read_date(text.as_str(), "%Y:%m:%d") {
            Some(day) => Ok(Some(day)),
            None => Err(DateError::Format(text.clone())),
        },
        JsonValue::Number(_) => Ok(None),
        JsonValue::Null => Ok(None),
        _ => Err(DateError::Kind),
    }
}

} // verus!
