//! Laying out requests as argument lines.
//!
//! The process takes its arguments one per line and runs them when it reads
//! the line `-execute`. Every function here builds the lines of one kind of
//! request; none of them talks to the process.

use crate::text::texts;
use vstd::prelude::*;
use vstd::string::*;

verus! {

/// The arguments that start the process in stay-open mode, reading further
/// arguments from its input stream: `-stay_open True -@ -`.
pub open spec fn spec_launch_arguments() -> Seq<Seq<char>> {
    seq!["-stay_open"@, "True"@, "-@"@, "-"@]
}

/// The lines of a request: its arguments, then `-execute`.
pub open spec fn spec_request_lines(args: Seq<Seq<char>>) -> Seq<Seq<char>> {
    args.push("-execute"@)
}

/// The lines that end stay-open mode: `-stay_open`, `False`, `-execute`.
pub open spec fn spec_shutdown_lines() -> Seq<Seq<char>> {
    seq!["-stay_open"@, "False"@, "-execute"@]
}

/// The arguments of a structured query: `-json`, then `args`.
pub open spec fn spec_json_arguments(args: Seq<Seq<char>>) -> Seq<Seq<char>> {
    seq!["-json"@] + args
}

/// The arguments of a query on several files: the extra arguments, then the
/// paths in the order given.
pub open spec fn spec_batch_arguments(paths: Seq<Seq<char>>, extra: Seq<Seq<char>>) -> Seq<
    Seq<char>,
> {
    extra + paths
}

/// The argument that selects one tag: `-TAG`.
pub open spec fn spec_tag_selector(tag: Seq<char>) -> Seq<char> {
    "-"@ + tag
}

/// The arguments that select each of `tags`, in order.
pub open spec fn spec_tag_selectors(tags: Seq<Seq<char>>) -> Seq<Seq<char>> {
    Seq::new(tags.len(), |i: int| spec_tag_selector(tags[i]))
}

/// The arguments that ask for a tag's value as raw bytes: the path, `-b`,
/// `-TAG`.
pub open spec fn spec_binary_read_arguments(path: Seq<char>, tag: Seq<char>) -> Seq<Seq<char>> {
    seq![path, "-b"@, spec_tag_selector(tag)]
}

/// The argument that sets a tag to a value: `-TAG=VALUE`.
pub open spec fn spec_assignment(tag: Seq<char>, value: Seq<char>) -> Seq<char> {
    "-"@ + tag + "="@ + value
}

/// The argument that sets a tag to the content of a file: `-TAG<=FILE`.
pub open spec fn spec_file_assignment(tag: Seq<char>, source: Seq<char>) -> Seq<char> {
    "-"@ + tag + "<="@ + source
}

/// The arguments of a write: what is set, the extra arguments, then the file
/// that is written to.
pub open spec fn spec_write_arguments(
    setting: Seq<char>,
    extra: Seq<Seq<char>>,
    path: Seq<char>,
) -> Seq<Seq<char>> {
    (seq![setting] + extra).push(path)
}

/// Appends copies of `items` to `out`.
pub fn extend_with(out: &mut Vec<String>, items: &Vec<String>)
    ensures
        texts(final(out)@) == texts(old(out)@) + texts(items@),
{
    let mut i: usize = 0;
    while i < items.len()
        invariant
            i <= items.len(),
            texts(out@) == texts(old(out)@) + texts(items@).take(i as int),
        decreases items.len() - i,
    {
        let ghost before = out@;
        out.push(items[i].clone());
        assert(texts(out@) =~= texts(before).push(items@[i as int]@));
        assert(texts(items@).take(i + 1) =~= texts(items@).take(i as int).push(items@[i as int]@));
        assert(texts(out@) =~= texts(old(out)@) + texts(items@).take(i + 1));
        i += 1;
    }
    assert(texts(items@).take(items@.len() as int) =~= texts(items@));
}

/// The arguments that start the process.
pub fn launch_arguments() -> (args: Vec<String>)
    ensures
        texts(args@) == spec_launch_arguments(),
{
    let mut args: Vec<String> = Vec::new();
    args.push(String::from_str("-stay_open"));
    args.push(String::from_str("True"));
    args.push(String::from_str("-@"));
    args.push(String::from_str("-"));
    assert(texts(args@) =~= spec_launch_arguments());
    args
}

/// The lines to write for a request with these arguments.
pub fn request_lines(args: &Vec<String>) -> (lines: Vec<String>)
    ensures
        texts(lines@) == spec_request_lines(texts(args@)),
{
    let mut lines: Vec<String> = Vec::new();
    extend_with(&mut lines, args);
    let ghost copied = lines@;
    lines.push(String::from_str("-execute"));
    assert(texts(lines@) =~= texts(copied).push("-execute"@));
    assert(texts(copied) =~= texts(args@));
    lines
}

/// The lines to write when the conversation ends.
pub fn shutdown_lines() -> (lines: Vec<String>)
    ensures
        texts(lines@) == spec_shutdown_lines(),
{
    let mut lines: Vec<String> = Vec::new();
    lines.push(String::from_str("-stay_open"));
    lines.push(String::from_str("False"));
    lines.push(String::from_str("-execute"));
    assert(texts(lines@) =~= spec_shutdown_lines());
    lines
}

/// The arguments of a structured query.
pub fn json_arguments(args: &Vec<String>) -> (out: Vec<String>)
    ensures
        texts(out@) == spec_json_arguments(texts(args@)),
{
    let mut out: Vec<String> = Vec::new();
    out.push(String::from_str("-json"));
    assert(texts(out@) =~= seq!["-json"@]);
    extend_with(&mut out, args);
    out
}

/// The arguments of a query on several files.
pub fn batch_arguments(paths: &Vec<String>, extra: &Vec<String>) -> (out: Vec<String>)
    ensures
        texts(out@) == spec_batch_arguments(texts(paths@), texts(extra@)),
{
    let mut out: Vec<String> = Vec::new();
    extend_with(&mut out, extra);
    extend_with(&mut out, paths);
    assert(texts(out@) =~= texts(extra@) + texts(paths@));
    out
}

/// The argument that selects one tag.
pub fn tag_selector(tag: &str) -> (out: String)
    ensures
        out@ == spec_tag_selector(tag@),
{
    String::from_str("-").concat(tag)
}

/// The arguments that select each of `tags`, in order.
pub fn tag_selectors(tags: &Vec<String>) -> (out: Vec<String>)
    ensures
        texts(out@) == spec_tag_selectors(texts(tags@)),
{
    let mut out: Vec<String> = Vec::new();
    let mut i: usize = 0;
    while i < tags.len()
        invariant
            i <= tags.len(),
            out@.len() == i,
            forall|j: int| 0 <= j < i ==> (#[trigger] out@[j])@ == spec_tag_selector(tags@[j]@),
        decreases tags.len() - i,
    {
        out.push(tag_selector(tags[i].as_str()));
        i += 1;
    }
    assert(texts(out@) =~= spec_tag_selectors(texts(tags@)));
    out
}

/// The arguments that ask for a tag's value as raw bytes.
pub fn binary_read_arguments(path: &str, tag: &str) -> (out: Vec<String>)
    ensures
        texts(out@) == spec_binary_read_arguments(path@, tag@),
{
    let mut out: Vec<String> = Vec::new();
    out.push(String::from_str(path));
    out.push(String::from_str("-b"));
    out.push(tag_selector(tag));
    assert(texts(out@) =~= spec_binary_read_arguments(path@, tag@));
    out
}

/// The argument that sets a tag to a value given as text.
pub fn assignment(tag: &str, value: &str) -> (out: String)
    ensures
        out@ == spec_assignment(tag@, value@),
{
    String::from_str("-").concat(tag).concat("=").concat(value)
}

/// The argument that sets a tag to the content of the file at `source`.
pub fn file_assignment(tag: &str, source: &str) -> (out: String)
    ensures
        out@ == spec_file_assignment(tag@, source@),
{
    String::from_str("-").concat(tag).concat("<=").concat(source)
}

/// The arguments of a write.
pub fn write_arguments(setting: String, extra: &Vec<String>, path: &str) -> (out: Vec<String>)
    ensures
        texts(out@) == spec_write_arguments(setting@, texts(extra@), path@),
{
    let mut out: Vec<String> = Vec::new();
    out.push(setting);
    assert(texts(out@) =~= seq![setting@]);
    extend_with(&mut out, extra);
    let ghost before = out@;
    out.push(String::from_str(path));
    assert(texts(out@) =~= texts(before).push(path@));
    out
}

/// A query on several files names the files after the extra arguments, each
/// once and in the order given, whatever the extra arguments are.
pub proof fn lemma_batch_keeps_paths_in_order(paths: Seq<Seq<char>>, extra: Seq<Seq<char>>)
    ensures
        spec_batch_arguments(paths, extra).len() == extra.len() + paths.len(),
        spec_batch_arguments(paths, extra).skip(extra.len() as int) == paths,
        spec_batch_arguments(paths, extra).take(extra.len() as int) == extra,
{
    assert(spec_batch_arguments(paths, extra).skip(extra.len() as int) =~= paths);
    assert(spec_batch_arguments(paths, extra).take(extra.len() as int) =~= extra);
}

} // verus!
