//! A tag that holds a time of day.

use crate::parse_fn::datetime::{read_time, time_reading};
use vstd::prelude::*;

verus! {

/// The time of day that a text holds: read as hours, minutes and seconds,
/// and where that fails, with a fraction of a second.
pub open spec fn time_of(text: Seq<char>) -> Option<chrono::NaiveTime> {
    if time_reading(text, "%H:%M:%S"@) is Some {
        time_reading(text, "%H:%M:%S"@)
    } else {
        time_reading(text, "%H:%M:%S%.f"@)
    }
}

/// Reads a text as a time of day. A text that is none gives no time, as a
/// missing text does.
pub fn timestamp(text: Option<&str>) -> (read: Option<chrono::NaiveTime>)
    ensures
        text is None ==> read is None,
        text is Some ==> read == time_of(text->Some_0@),
{
    match text {
        None => None,
        Some(text) => {
            if let Some(time) = read_time(text, "%H:%M:%S") {
                return Some(time);
            }
            read_time(text, "%H:%M:%S%.f")
        },
    }
}

} // verus!
