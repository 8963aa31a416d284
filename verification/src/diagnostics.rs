//! Reading the diagnostic lines of one request.
//!
//! The process reports failures on its diagnostic stream, one per line. A
//! line that begins with `Error: File not found - ` names a missing file; any
//! other line that holds `Error:` fails the request; everything else, warnings
//! included, leaves the result as it is. The first line that fails the request
//! decides how.

use crate::error::{ErrorView, ExifToolError};
use crate::text::{
    contains,
    contains_text,
    has_prefix,
    join,
    joined,
    starts_with,
    strip_prefix,
    texts,
    trim,
    trimmed,
};
use vstd::prelude::*;
use vstd::string::*;

verus! {

/// What a line that reports a missing file begins with.
pub open spec fn missing_file_prefix() -> Seq<char> {
    "Error: File not found - "@
}

/// What a line that reports any other failure holds.
pub open spec fn error_marker() -> Seq<char> {
    "Error:"@
}

/// What a line that reports a warning holds.
pub open spec fn warning_marker() -> Seq<char> {
    "Warning:"@
}

/// The line reports a missing file.
pub open spec fn reports_missing_file(line: Seq<char>) -> bool {
    has_prefix(line, missing_file_prefix())
}

/// The line fails the request.
pub open spec fn is_fatal(line: Seq<char>) -> bool {
    reports_missing_file(line) || contains_text(line, error_marker())
}

/// The file that a line which reports a missing file names.
pub open spec fn missing_file(line: Seq<char>) -> Seq<char> {
    trimmed(line.skip(missing_file_prefix().len() as int))
}

/// The index of the first line that fails the request, or the number of
/// lines where none does.
pub open spec fn first_fatal(lines: Seq<Seq<char>>) -> nat
    decreases lines.len(),
{
    if lines.len() == 0 {
        0
    } else if is_fatal(lines[0]) {
        0
    } else {
        1 + first_fatal(lines.drop_first())
    }
}

/// What is reported when the output stream ends and diagnostic lines are at
/// hand: the lines, under this heading.
pub open spec fn termination_heading() -> Seq<char> {
    "Process terminated unexpectedly. Stderr:\n"@
}

/// What stands for the command line when the output stream has ended.
pub open spec fn unknown_command() -> Seq<char> {
    "<unknown - process terminated>"@
}

/// What the diagnostic lines of a request mean for it: `None` where no line
/// fails it, else the failure that the first failing line gives. `args` are
/// the argument lines of the request.
pub open spec fn classified(lines: Seq<Seq<char>>, args: Seq<Seq<char>>) -> Option<ErrorView> {
    let at = first_fatal(lines) as int;
    if at >= lines.len() {
        None
    } else if reports_missing_file(lines[at]) {
        Some(
            ErrorView::FileNotFound {
                path: missing_file(lines[at]),
                command_args: joined(args, " "@),
            },
        )
    } else {
        Some(
            ErrorView::ExifToolProcess {
                message: lines[at],
                std_err: joined(lines, "\n"@),
                command_args: joined(args, " "@),
            },
        )
    }
}

/// What is reported of a request whose output stream ended before the
/// completion marker, given the diagnostic lines that arrived.
pub open spec fn closed_stream_failure(lines: Seq<Seq<char>>) -> ErrorView {
    if lines.len() == 0 {
        ErrorView::ProcessTerminated
    } else {
        ErrorView::ExifToolProcess {
            message: termination_heading() + joined(lines, "\n"@),
            std_err: joined(lines, "\n"@),
            command_args: unknown_command(),
        }
    }
}

/// The lines of `lines` that hold a warning, in order.
pub open spec fn holding_warning(lines: Seq<Seq<char>>) -> Seq<Seq<char>>
    decreases lines.len(),
{
    if lines.len() == 0 {
        Seq::empty()
    } else if contains_text(lines.last(), warning_marker()) {
        holding_warning(lines.drop_last()).push(lines.last())
    } else {
        holding_warning(lines.drop_last())
    }
}

/// The warnings of a request: the lines that hold one and come before the
/// first line that fails the request.
pub open spec fn warnings_of(lines: Seq<Seq<char>>) -> Seq<Seq<char>> {
    holding_warning(lines.take(first_fatal(lines) as int))
}

proof fn lemma_first_fatal(lines: Seq<Seq<char>>, k: int)
    requires
        0 <= k <= lines.len(),
        forall|j: int| 0 <= j < k ==> !is_fatal(lines[j]),
        k == lines.len() || is_fatal(lines[k]),
    ensures
        first_fatal(lines) == k,
    decreases k,
{
    if k > 0 {
        let rest = lines.drop_first();
        assert forall|j: int| 0 <= j < k - 1 implies !is_fatal(rest[j]) by {
            assert(rest[j] == lines[j + 1]);
        }
        if k < lines.len() {
            assert(rest[k - 1] == lines[k]);
        }
        lemma_first_fatal(rest, k - 1);
    }
}

/// Decides what the diagnostic lines of a request mean for its result.
///
/// `args` are the argument lines of the request; they are reported, joined by
/// spaces, as the command line of a failure.
pub fn classify(lines: &Vec<String>, args: &Vec<String>) -> (verdict: Result<(), ExifToolError>)
    ensures
        verdict is Ok <==> classified(texts(lines@), texts(args@)) is None,
        verdict is Err ==> classified(texts(lines@), texts(args@)) == Some(verdict->Err_0@),
{
    let mut i: usize = 0;
    while i < lines.len()
        invariant
            i <= lines.len(),
            forall|j: int| 0 <= j < i ==> !is_fatal(#[trigger] texts(lines@)[j]),
        decreases lines.len() - i,
    {
        let line: &str = lines[i].as_str();
        assert(texts(lines@)[i as int] == line@);
        match strip_prefix(line, "Error: File not found - ") {
            Some(rest) => {
                proof {
                    lemma_first_fatal(texts(lines@), i as int);
                }
                return Err(
                    ExifToolError::FileNotFound {
                        path: trim(rest.as_str()),
                        command_args: join(args, " "),
                    },
                );
            },
            None => {},
        }
        if contains(line, "Error:") {
            proof {
                lemma_first_fatal(texts(lines@), i as int);
            }
            return Err(
                ExifToolError::ExifToolProcess {
                    message: lines[i].clone(),
                    std_err: join(lines, "\n"),
                    command_args: join(args, " "),
                },
            );
        }
        i += 1;
    }
    proof {
        lemma_first_fatal(texts(lines@), lines@.len() as int);
    }
    Ok(())
}

/// The warnings among the diagnostic lines of a request, for whoever keeps
/// a log. They leave the result of the request as it is.
pub fn warnings(lines: &Vec<String>) -> (found: Vec<String>)
    ensures
        texts(found@) == warnings_of(texts(lines@)),
{
    let mut found: Vec<String> = Vec::new();
    let mut i: usize = 0;
    assert(texts(lines@).take(0) =~= Seq::<Seq<char>>::empty());
    assert(texts(found@) =~= Seq::<Seq<char>>::empty());
    while i < lines.len()
        invariant
            i <= lines.len(),
            forall|j: int| 0 <= j < i ==> !is_fatal(#[trigger] texts(lines@)[j]),
            texts(found@) == holding_warning(texts(lines@).take(i as int)),
        decreases lines.len() - i,
    {
        let line: &str = lines[i].as_str();
        assert(texts(lines@)[i as int] == line@);
        if starts_with(line, "Error: File not found - ") || contains(line, "Error:") {
            proof {
                lemma_first_fatal(texts(lines@), i as int);
            }
            return found;
        }
        proof {
            assert(texts(lines@).take(i + 1).drop_last() =~= texts(lines@).take(i as int));
            assert(texts(lines@).take(i + 1).last() == line@);
        }
        if contains(line, "Warning:") {
            let ghost before = found@;
            found.push(lines[i].clone());
            assert(texts(found@) =~= texts(before).push(line@));
        }
        i += 1;
    }
    proof {
        lemma_first_fatal(texts(lines@), lines@.len() as int);
    }
    found
}

/// The error of a request whose output stream ended before the completion
/// marker. Diagnostic lines that arrived are surfaced as its context.
pub fn stream_closed_error(lines: &Vec<String>) -> (error: ExifToolError)
    ensures
        error@ == closed_stream_failure(texts(lines@)),
{
    if lines.len() == 0 {
        return ExifToolError::ProcessTerminated;
    }
    let std_err = join(lines, "\n");
    let message = String::from_str("Process terminated unexpectedly. Stderr:\n").concat(
        std_err.as_str(),
    );
    ExifToolError::ExifToolProcess {
        message,
        std_err,
        command_args: String::from_str("<unknown - process terminated>"),
    }
}

/// A line that names a missing file fails the request as a missing file, with
/// the name as it stands in the line, as long as no line before it fails the
/// request; it is never reported as a failure of another kind.
pub proof fn lemma_missing_file_is_named(
    lines: Seq<Seq<char>>,
    args: Seq<Seq<char>>,
    at: int,
    name: Seq<char>,
)
    requires
        0 <= at < lines.len(),
        forall|j: int| 0 <= j < at ==> !is_fatal(lines[j]),
        lines[at] == missing_file_prefix() + name,
        trimmed(name) == name,
    ensures
        classified(lines, args) == Some(
            ErrorView::FileNotFound { path: name, command_args: joined(args, " "@) },
        ),
{
    let line = lines[at];
    let prefix = missing_file_prefix();
    assert(line.subrange(0, prefix.len() as int) =~= prefix);
    assert(line.skip(prefix.len() as int) =~= name);
    lemma_first_fatal(lines, at);
}

} // verus!
