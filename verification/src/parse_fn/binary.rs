//! The placeholder that stands for an embedded run of bytes.
//!
//! In a structured answer the process does not write out the bytes of an
//! embedded image or profile. It writes a text such as
//! `(Binary data 6241 bytes, use -b option to extract)` in their place.

use crate::parse_fn::decimal::{parse_unsigned, unsigned_value};
use vstd::prelude::*;
use vstd::string::*;

verus! {

/// The error of a pattern that `regex` could not compile, carried as it came.
#[verifier::external_type_specification]
#[verifier::external_body]
pub struct ExRegexError(regex::Error);

/// What is known of an embedded run of bytes from its placeholder: how long
/// it is, and under which tag it can be asked for.
#[derive(Debug, Clone)]
pub struct BinaryDataField {
    bytes: usize,
    field_name: String,
}

/// Why a text could not be read as a placeholder.
#[derive(Debug)]
pub enum PlaceholderError {
    /// The pattern of the placeholder could not be compiled.
    Pattern(regex::Error),
    /// The length that the placeholder gives is no number that fits `usize`.
    Size,
}

/// The pattern of a placeholder, with the length as its first group.
pub open spec fn placeholder_pattern() -> Seq<char> {
    "\\(Binary data (\\d+) bytes, use -b option to extract\\)"@
}

/// The tag that every placeholder is booked under.
pub open spec fn placeholder_tag() -> Seq<char> {
    "BlueTRC"@
}

/// What `regex` finds of `pattern` in `text`: `None` where the pattern does
/// not compile; else `Some`, and in it what the first group of the leftmost
/// match spans, or `None` where nothing matches or the group took no part.
pub uninterp spec fn first_group(pattern: Seq<char>, text: Seq<char>) -> Option<Option<Seq<char>>>;

/// Compiles `pattern` with `regex::Regex::new`, searches `text` with
/// `Regex::captures`, and copies what `Captures::get(1)` spans. The result
/// depends on the two texts alone.
#[verifier::external_body]
fn capture_first_group(pattern: &str, text: &str) -> (found: Result<Option<String>, regex::Error>)
    ensures
        found is Ok <==> first_group(pattern@, text@) is Some,
        found is Ok ==> first_group(pattern@, text@) == Some(
            match found->Ok_0 {
                Some(span) => Some(span@),
                None => None,
            },
        ),
{
    let compiled = regex::Regex::new(pattern)?;
    Ok(compiled.captures(text).and_then(|found| found.get(1)).map(|span| span.as_str().to_string()))
}

/// What a text says as a placeholder, from the length that was found in it:
/// `None` where no length was found.
pub open spec fn placeholder_of(length: Option<Seq<char>>) -> Result<Option<(nat, Seq<char>)>, ()> {
    match length {
        None => Ok(None),
        Some(digits) => match unsigned_value(digits, usize::MAX as nat) {
            Some(count) => Ok(Some((count, placeholder_tag()))),
            None => Err(()),
        },
    }
}

impl BinaryDataField {
    /// The length in bytes that the placeholder gives.
    pub closed spec fn size(&self) -> nat {
        self.bytes as nat
    }

    /// The tag under which the bytes can be asked for.
    pub closed spec fn tag(&self) -> Seq<char> {
        self.field_name@
    }

    /// The length in bytes that the placeholder gives.
    pub fn bytes(&self) -> (count: usize)
        ensures
            count as nat == self.size(),
    {
        self.bytes
    }

    /// The tag under which the bytes can be asked for.
    pub fn field_name(&self) -> (name: &str)
        ensures
            name@ == self.tag(),
    {
        self.field_name.as_str()
    }

    /// The bytes that the placeholder stands for. They are not fetched: the
    /// answer is always the same three bytes.
    pub fn extract(&self) -> (content: Result<Vec<u8>, std::io::Error>)
        ensures
            content is Ok,
            content->Ok_0@ == seq![1u8, 2u8, 3u8],
    {
        let mut content: Vec<u8> = Vec::new();
        content.push(1);
        content.push(2);
        content.push(3);
        assert(content@ =~= seq![1u8, 2u8, 3u8]);
        Ok(content)
    }
}

/// The field of a placeholder whose length was found as `length`; no field
/// where no length was found.
pub fn binary_field(length: Option<String>) -> (field: Result<
    Option<BinaryDataField>,
    PlaceholderError,
>)
    ensures
        match placeholder_of(
            match length {
                Some(digits) => Some(digits@),
                None => None,
            },
        ) {
            Ok(None) => field is Ok && field->Ok_0 is None,
            Ok(Some(known)) => field is Ok && field->Ok_0 is Some && field->Ok_0->Some_0.size()
                == known.0 && field->Ok_0->Some_0.tag() == known.1,
            Err(_) => field is Err && field->Err_0 is Size,
        },
{
    match length {
        None => Ok(None),
        Some(digits) => match parse_unsigned(digits.as_str(), usize::MAX as u64) {
            Some(count) => Ok(
                Some(BinaryDataField { bytes: count as usize, field_name: String::from_str("BlueTRC") }),
            ),
            None => Err(PlaceholderError::Size),
        },
    }
}

/// Reads `text` as a placeholder: no field where it holds none.
pub fn binary(text: &str) -> (field: Result<Option<BinaryDataField>, PlaceholderError>)
    ensures
        match first_group(placeholder_pattern(), text@) {
            None => field is Err && field->Err_0 is Pattern,
            Some(length) => match placeholder_of(length) {
                Ok(None) => field is Ok && field->Ok_0 is None,
                Ok(Some(known)) => field is Ok && field->Ok_0 is Some
                    && field->Ok_0->Some_0.size() == known.0 && field->Ok_0->Some_0.tag()
                    == known.1,
                Err(_) => field is Err && field->Err_0 is Size,
            },
        },
{
    match capture_first_group("\\(Binary data (\\d+) bytes, use -b option to extract\\)", text) {
        Err(error) => Err(PlaceholderError::Pattern(error)),
        Ok(length) => binary_field(length),
    }
}

} // verus!
