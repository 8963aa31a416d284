//! Tags whose value is a run of bytes.

use crate::error::{ErrorView, ExifToolError};
use vstd::prelude::*;
use vstd::string::*;

verus! {

/// The value of a tag that was asked for as raw bytes, from the response.
///
/// The process has no way to say that such a tag is missing: it answers with
/// no bytes. So an empty response is reported as a missing tag, and any other
/// response is the value, byte for byte.
pub fn binary_payload(payload: Vec<u8>, path: &str, tag: &str) -> (value: Result<
    Vec<u8>,
    ExifToolError,
>)
    ensures
        payload@.len() > 0 ==> value is Ok && value->Ok_0 == payload,
        payload@.len() == 0 ==> value is Err && value->Err_0@ == (ErrorView::TagNotFound {
            path: path@,
            tag: tag@,
        }),
{
    if payload.len() == 0 {
        return Err(
            ExifToolError::TagNotFound { path: String::from_str(path), tag: String::from_str(tag) },
        );
    }
    Ok(payload)
}

} // verus!
