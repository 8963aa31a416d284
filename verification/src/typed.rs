//! Typed reads: from the value of a tag to a value of the type asked for.
//!
//! Turning a structured value into a type of the caller is the caller's
//! business. What is decided here is the order of the attempts and the error
//! that each failure gives. The value of a tag that is present is tried as it
//! is, and a failure there is a mismatch of types. Only for a tag that is
//! missing is the absent value tried: a type that takes it, such as an
//! `Option`, gets its absent value, and any other type gets the error of the
//! missing tag.

use crate::error::{ErrorView, ExifToolError};
use crate::json::JsonValue;
use vstd::prelude::*;
use vstd::string::*;

verus! {

/// The error of `serde_path_to_error`: an error of the decoder together with
/// the path of the field at which it arose.
#[verifier::external_type_specification]
#[verifier::external_body]
#[verifier::reject_recursive_types(E)]
pub struct ExPathError<E>(serde_path_to_error::Error<E>);

/// What a typed read does after the tag was looked up.
#[derive(Debug)]
pub enum TypedStep {
    /// The tag is present: turn this value into the type asked for.
    Convert(JsonValue),
    /// The tag is missing: turn the absent value, a JSON `null`, into the
    /// type asked for.
    ConvertAbsent,
    /// The lookup failed otherwise: this is the error of the read.
    Fail(ExifToolError),
}

/// Decides the next step of a typed read from the outcome of the lookup.
pub fn typed_step(lookup: Result<JsonValue, ExifToolError>) -> (step: TypedStep)
    ensures
        lookup is Ok ==> step is Convert && step->Convert_0 == lookup->Ok_0,
        lookup is Err && lookup->Err_0 is TagNotFound ==> step is ConvertAbsent,
        lookup is Err && !(lookup->Err_0 is TagNotFound) ==> step is Fail && step->Fail_0
            == lookup->Err_0,
{
    match lookup {
        Ok(value) => TypedStep::Convert(value),
        Err(ExifToolError::TagNotFound { .. }) => TypedStep::ConvertAbsent,
        Err(error) => TypedStep::Fail(error),
    }
}

/// The result of a typed read of a tag that is present, from the outcome of
/// turning its value into `T`: the value, or a mismatch of types that carries
/// the decoder's error.
pub fn present_value<T>(conversion: Result<T, serde_json::Error>, path: &str, tag: &str) -> (read:
    Result<T, ExifToolError>)
    ensures
        conversion is Ok ==> read is Ok && read->Ok_0 == conversion->Ok_0,
        conversion is Err ==> read is Err && read->Err_0@ == (ErrorView::TagDeserialization {
            path: path@,
            tag: tag@,
            error: conversion->Err_0,
        }),
{
    match conversion {
        Ok(value) => Ok(value),
        Err(error) => Err(
            ExifToolError::TagDeserialization {
                path: String::from_str(path),
                tag: String::from_str(tag),
                error,
            },
        ),
    }
}

/// The result of a typed read of a tag that is missing, from the outcome of
/// turning the absent value into `T`: the absent value of `T` where `T` has
/// one, the error of the missing tag where it has none.
pub fn absent_value<T>(conversion: Result<T, serde_json::Error>, path: &str, tag: &str) -> (read:
    Result<T, ExifToolError>)
    ensures
        conversion is Ok ==> read is Ok && read->Ok_0 == conversion->Ok_0,
        conversion is Err ==> read is Err && read->Err_0@ == (ErrorView::TagNotFound {
            path: path@,
            tag: tag@,
        }),
{
    match conversion {
        Ok(value) => Ok(value),
        Err(_) => Err(
            ExifToolError::TagNotFound { path: String::from_str(path), tag: String::from_str(tag) },
        ),
    }
}

/// Reads a tag into `T`, from the outcome of the lookup and the two ways of
/// making a `T`: `convert`, from the value of the tag, and `convert_absent`,
/// from the absent value.
///
/// The value of a tag that is present goes through `convert`, and a failure
/// there is a mismatch of types. `convert_absent` is called only for a tag
/// that is missing, and its failure gives the error of the missing tag. Any
/// other failure of the lookup is the failure of the read, and nothing is
/// converted.
pub fn read_tag<T, F, G>(
    lookup: Result<JsonValue, ExifToolError>,
    path: &str,
    tag: &str,
    convert: F,
    convert_absent: G,
) -> (read: Result<T, ExifToolError>) where
    F: FnOnce(JsonValue) -> Result<T, serde_json::Error>,
    G: FnOnce() -> Result<T, serde_json::Error>,

    requires
        lookup is Ok ==> call_requires(convert, (lookup->Ok_0,)),
        lookup is Err && lookup->Err_0 is TagNotFound ==> call_requires(convert_absent, ()),
    ensures
        lookup is Ok && read is Ok ==> call_ensures(
            convert,
            (lookup->Ok_0,),
            Ok::<T, serde_json::Error>(read->Ok_0),
        ),
        lookup is Ok && read is Err ==> read->Err_0@ is TagDeserialization && call_ensures(
            convert,
            (lookup->Ok_0,),
            Err::<T, serde_json::Error>(read->Err_0@->TagDeserialization_error),
        ) && read->Err_0@->TagDeserialization_path == path@
            && read->Err_0@->TagDeserialization_tag == tag@,
        lookup is Err && lookup->Err_0 is TagNotFound && read is Ok ==> call_ensures(
            convert_absent,
            (),
            Ok::<T, serde_json::Error>(read->Ok_0),
        ),
        lookup is Err && lookup->Err_0 is TagNotFound && read is Err ==> read->Err_0@
            == (ErrorView::TagNotFound { path: path@, tag: tag@ }),
        lookup is Err && !(lookup->Err_0 is TagNotFound) ==> read is Err && read->Err_0
            == lookup->Err_0,
{
    match typed_step(lookup) {
        TypedStep::Convert(value) => present_value(convert(value), path, tag),
        TypedStep::ConvertAbsent => absent_value(convert_absent(), path, tag),
        TypedStep::Fail(error) => Err(error),
    }
}

/// Takes an error of `serde_path_to_error` apart with its `path` and
/// `into_inner`: the path of the field, written out, and the decoder's error.
#[verifier::external_body]
fn field_and_cause(error: serde_path_to_error::Error<serde_json::Error>) -> (parts: (
    String,
    serde_json::Error,
)) {
    (error.path().to_string(), error.into_inner())
}

/// The result of reading a whole record, from the outcome of building it:
/// the record, or an error that names the field at which building failed.
pub fn record_value<T>(
    conversion: Result<T, serde_path_to_error::Error<serde_json::Error>>,
) -> (read: Result<T, ExifToolError>)
    ensures
        conversion is Ok ==> read is Ok && read->Ok_0 == conversion->Ok_0,
        conversion is Err ==> read is Err && read->Err_0 is Deserialization,
{
    match conversion {
        Ok(record) => Ok(record),
        Err(error) => {
            let (path, source) = field_and_cause(error);
            Err(ExifToolError::Deserialization { path, source })
        },
    }
}

} // verus!
