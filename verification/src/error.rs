//! What can go wrong in a conversation with the process.

use vstd::prelude::*;

verus! {

/// An error of the operating system, carried as it came.
#[verifier::external_type_specification]
#[verifier::external_body]
pub struct ExIoError(std::io::Error);

/// The error of a byte sequence that is no UTF-8 text, carried as it came.
#[verifier::external_type_specification]
#[verifier::external_body]
pub struct ExFromUtf8Error(std::string::FromUtf8Error);

/// The error of a JSON text that could not be decoded, or of a decoded value
/// that does not fit the type asked for, carried as it came.
#[verifier::external_type_specification]
#[verifier::external_body]
pub struct ExJsonError(serde_json::Error);

/// Every way in which a request can fail. Each variant carries what is needed
/// to say what was attempted: the file, the tag, the command line.
#[derive(Debug)]
pub enum ExifToolError {
    /// The executable could not be found or started.
    ExifToolNotFound(std::io::Error),
    /// A pipe of the process could not be captured, written or read.
    Io(std::io::Error),
    /// The response was no JSON text.
    Json(serde_json::Error),
    /// The response was no UTF-8 text.
    Utf8(std::string::FromUtf8Error),
    /// The process reported that a file does not exist.
    FileNotFound { path: String, command_args: String },
    /// The process reported another error. `message` is the line that holds
    /// it, `std_err` all diagnostic lines of the request.
    ExifToolProcess { message: String, std_err: String, command_args: String },
    /// The output stream ended before the completion marker.
    ProcessTerminated,
    /// The diagnostic stream is gone and left nothing behind.
    StderrDisconnected,
    /// The response is JSON, but not of the shape that the request calls for.
    UnexpectedFormat { path: String, command_args: String },
    /// A structured query was answered with no bytes at all.
    EmptyResult { context: String },
    /// The file's metadata holds no such tag.
    TagNotFound { path: String, tag: String },
    /// A record could not be built from the metadata; `path` names the field.
    Deserialization { path: String, source: serde_json::Error },
    /// The tag is present, but its value does not fit the type asked for.
    TagDeserialization { path: String, tag: String, error: serde_json::Error },
}

/// An error as contracts speak of it: the texts it carries as sequences of
/// characters, an error that came from outside as it is.
pub enum ErrorView {
    ExifToolNotFound(std::io::Error),
    Io(std::io::Error),
    Json(serde_json::Error),
    Utf8(std::string::FromUtf8Error),
    FileNotFound { path: Seq<char>, command_args: Seq<char> },
    ExifToolProcess { message: Seq<char>, std_err: Seq<char>, command_args: Seq<char> },
    ProcessTerminated,
    StderrDisconnected,
    UnexpectedFormat { path: Seq<char>, command_args: Seq<char> },
    EmptyResult { context: Seq<char> },
    TagNotFound { path: Seq<char>, tag: Seq<char> },
    Deserialization { path: Seq<char>, source: serde_json::Error },
    TagDeserialization { path: Seq<char>, tag: Seq<char>, error: serde_json::Error },
}

impl View for ExifToolError {
    type V = ErrorView;

    open spec fn view(&self) -> ErrorView {
        match self {
            ExifToolError::ExifToolNotFound(cause) => ErrorView::ExifToolNotFound(*cause),
            ExifToolError::Io(cause) => ErrorView::Io(*cause),
            ExifToolError::Json(cause) => ErrorView::Json(*cause),
            ExifToolError::Utf8(cause) => ErrorView::Utf8(*cause),
            ExifToolError::FileNotFound { path, command_args } => ErrorView::FileNotFound {
                path: path@,
                command_args: command_args@,
            },
            ExifToolError::ExifToolProcess {
                message,
                std_err,
                command_args,
            } => ErrorView::ExifToolProcess {
                message: message@,
                std_err: std_err@,
                command_args: command_args@,
            },
            ExifToolError::ProcessTerminated => ErrorView::ProcessTerminated,
            ExifToolError::StderrDisconnected => ErrorView::StderrDisconnected,
            ExifToolError::UnexpectedFormat { path, command_args } => ErrorView::UnexpectedFormat {
                path: path@,
                command_args: command_args@,
            },
            ExifToolError::EmptyResult { context } => ErrorView::EmptyResult { context: context@ },
            ExifToolError::TagNotFound { path, tag } => ErrorView::TagNotFound {
                path: path@,
                tag: tag@,
            },
            ExifToolError::Deserialization { path, source } => ErrorView::Deserialization {
                path: path@,
                source: *source,
            },
            ExifToolError::TagDeserialization { path, tag, error } => ErrorView::TagDeserialization {
                path: path@,
                tag: tag@,
                error: *error,
            },
        }
    }
}

} // verus!
