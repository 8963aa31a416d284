//! Structured queries: what is asked, and how the answer is taken apart.
//!
//! A structured query is answered with one JSON array that holds one object
//! for each file named, also where a single file was named. Each function
//! here takes one step of that: from the bytes of the response to the decoded
//! value, from the value to its entries, from the entries to the one of a
//! single file, from that to the value of one tag.

use crate::command::{
    batch_arguments,
    json_arguments,
    spec_batch_arguments,
    spec_json_arguments,
};
use crate::error::{ErrorView, ExifToolError};
use crate::json::{decode, decoded_json, member, JsonValue};
use crate::text::{join, joined, texts};
use vstd::prelude::*;
use vstd::string::*;

verus! {

/// Decodes the response to a structured query whose arguments, without the
/// flag that asks for JSON, were `args`.
///
/// A response of no bytes at all is an error of its own, apart from an empty
/// array: the process answers so where it failed without a diagnostic line.
/// Its context is the command line of the query.
pub fn structured_response(args: &Vec<String>, payload: &Vec<u8>) -> (value: Result<
    JsonValue,
    ExifToolError,
>)
    ensures
        payload@.len() == 0 ==> value is Err && value->Err_0@ == (ErrorView::EmptyResult {
            context: joined(spec_json_arguments(texts(args@)), " "@),
        }),
        payload@.len() > 0 && decoded_json(payload@) is Some ==> value is Ok && value->Ok_0
            == decoded_json(payload@)->Some_0,
        payload@.len() > 0 && decoded_json(payload@) is None ==> value is Err && value->Err_0
            is Json,
{
    if payload.len() == 0 {
        let sent = json_arguments(args);
        return Err(ExifToolError::EmptyResult { context: join(&sent, " ") });
    }
    match decode(payload.as_slice()) {
        Ok(value) => Ok(value),
        Err(error) => Err(ExifToolError::Json(error)),
    }
}

/// The arguments of a query on `paths`, or `None` where there is no path:
/// then nothing is asked of the process, and the answer is no entry at all.
pub fn plan_batch(paths: &Vec<String>, extra: &Vec<String>) -> (plan: Option<Vec<String>>)
    ensures
        paths@.len() == 0 ==> plan is None,
        paths@.len() > 0 ==> plan is Some && texts(plan->Some_0@) == spec_batch_arguments(
            texts(paths@),
            texts(extra@),
        ),
{
    if paths.len() == 0 {
        None
    } else {
        Some(batch_arguments(paths, extra))
    }
}

/// The entries of the answer to a query on `paths`: the items of the decoded
/// array, as they are and in their order.
pub fn batch_entries(value: JsonValue, paths: &Vec<String>, extra: &Vec<String>) -> (entries:
    Result<Vec<JsonValue>, ExifToolError>)
    ensures
        value is Array ==> entries is Ok && entries->Ok_0 == value->Array_0,
        !(value is Array) ==> entries is Err && entries->Err_0@ == (ErrorView::UnexpectedFormat {
            path: joined(texts(paths@), ", "@),
            command_args: joined(
                spec_json_arguments(spec_batch_arguments(texts(paths@), texts(extra@))),
                " "@,
            ),
        }),
{
    match value {
        JsonValue::Array(items) => Ok(items),
        _ => {
            let asked = batch_arguments(paths, extra);
            let sent = json_arguments(&asked);
            Err(
                ExifToolError::UnexpectedFormat {
                    path: join(paths, ", "),
                    command_args: join(&sent, " "),
                },
            )
        },
    }
}

/// The entry of the one file that a query named: the first of the entries.
/// No entry at all means that the process passed the file over in silence.
pub fn single_entry(entries: Vec<JsonValue>, path: &str, extra: &Vec<String>) -> (entry: Result<
    JsonValue,
    ExifToolError,
>)
    ensures
        entries@.len() > 0 ==> entry is Ok && entry->Ok_0 == entries@[0],
        entries@.len() == 0 ==> entry is Err && entry->Err_0@ == (ErrorView::UnexpectedFormat {
            path: path@,
            command_args: joined(texts(extra@).push(path@), " "@),
        }),
{
    let mut entries = entries;
    if entries.len() > 0 {
        return Ok(entries.remove(0));
    }
    let mut asked: Vec<String> = Vec::new();
    crate::command::extend_with(&mut asked, extra);
    let ghost before = asked@;
    asked.push(String::from_str(path));
    assert(texts(asked@) =~= texts(before).push(path@));
    assert(texts(before) =~= texts(extra@));
    Err(
        ExifToolError::UnexpectedFormat {
            path: String::from_str(path),
            command_args: join(&asked, " "),
        },
    )
}

/// The value of one tag in the entry of a file. A tag is missing exactly
/// where the entry has no member of its name.
pub fn tag_value(entry: JsonValue, path: &str, tag: &str) -> (value: Result<
    JsonValue,
    ExifToolError,
>)
    ensures
        member(entry, tag@) is Some ==> value is Ok && value->Ok_0 == member(entry, tag@)->Some_0,
        member(entry, tag@) is None ==> value is Err && value->Err_0@ == (ErrorView::TagNotFound {
            path: path@,
            tag: tag@,
        }),
{
    match entry.into_member(tag) {
        Some(value) => Ok(value),
        None => Err(
            ExifToolError::TagNotFound { path: String::from_str(path), tag: String::from_str(tag) },
        ),
    }
}

} // verus!
