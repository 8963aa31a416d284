//! A response as lines of text.

use crate::error::ExifToolError;
use crate::text::{texts, to_chars};
use vstd::prelude::*;
use vstd::string::*;
use vstd::utf8::{decode_utf8, valid_utf8};

verus! {

/// The index of the first line feed in `text`, or its length where it has
/// none.
pub open spec fn first_break(text: Seq<char>) -> nat
    decreases text.len(),
{
    if text.len() == 0 {
        0
    } else if text[0] == '\n' {
        0
    } else {
        1 + first_break(text.drop_first())
    }
}

/// `line` without the carriage return at its end, where it has one.
pub open spec fn without_return(line: Seq<char>) -> Seq<char> {
    if line.len() > 0 && line.last() == '\r' {
        line.drop_last()
    } else {
        line
    }
}

/// The lines of `text`. A line ends with a line feed, or with a carriage
/// return and a line feed, neither of which belongs to it; what follows the
/// last line feed is a line of its own unless it is empty, and keeps a
/// carriage return at its end.
pub open spec fn lines_of(text: Seq<char>) -> Seq<Seq<char>>
    decreases text.len(),
{
    if text.len() == 0 {
        Seq::empty()
    } else if first_break(text) >= text.len() {
        seq![text]
    } else {
        seq![without_return(text.take(first_break(text) as int))] + lines_of(
            text.skip(first_break(text) as int + 1),
        )
    }
}

proof fn lemma_first_break(text: Seq<char>, k: int)
    requires
        0 <= k <= text.len(),
        forall|j: int| 0 <= j < k ==> text[j] != '\n',
        k == text.len() || text[k] == '\n',
    ensures
        first_break(text) == k,
    decreases k,
{
    if k > 0 {
        let rest = text.drop_first();
        assert forall|j: int| 0 <= j < k - 1 implies rest[j] != '\n' by {
            assert(rest[j] == text[j + 1]);
        }
        if k < text.len() {
            assert(rest[k - 1] == text[k]);
        }
        lemma_first_break(rest, k - 1);
    }
}

/// Turns bytes into text with `String::from_utf8`, which succeeds exactly on
/// well-formed UTF-8 and then gives the characters that the bytes encode.
#[verifier::external_body]
fn utf8_text(bytes: Vec<u8>) -> (text: Result<String, std::string::FromUtf8Error>)
    ensures
        text is Ok <==> valid_utf8(bytes@),
        text is Ok ==> text->Ok_0@ == decode_utf8(bytes@),
{
    String::from_utf8(bytes)
}

/// The lines of `text`.
pub fn split_lines(text: &str) -> (lines: Vec<String>)
    ensures
        texts(lines@) == lines_of(text@),
{
    let chars = to_chars(text);
    let n: usize = chars.len();
    let mut lines: Vec<String> = Vec::new();
    let mut start: usize = 0;
    let mut i: usize = 0;
    assert(text@.skip(0) =~= text@);
    assert(texts(lines@) + lines_of(text@) =~= lines_of(text@));
    while i < n
        invariant
            start <= i <= n,
            n == chars.len(),
            chars@ == text@,
            forall|j: int| start <= j < i ==> chars@[j] != '\n',
            lines_of(text@) == texts(lines@) + lines_of(text@.skip(start as int)),
        decreases n - i,
    {
        if chars[i] == '\n' {
            let end: usize = if i > start && chars[i - 1] == '\r' {
                i - 1
            } else {
                i
            };
            let line = String::from_str(text.substring_char(start, end));
            proof {
                let rest = text@.skip(start as int);
                assert forall|j: int| 0 <= j < i - start implies rest[j] != '\n' by {
                    assert(rest[j] == text@[start + j]);
                }
                lemma_first_break(rest, i - start);
                let whole = rest.take(i - start);
                assert(whole =~= text@.subrange(start as int, i as int));
                if i > start {
                    assert(whole.last() == text@[i - 1]);
                }
                assert(without_return(whole) =~= text@.subrange(start as int, end as int));
                assert(rest.skip(i - start + 1) =~= text@.skip(i + 1));
                assert(lines_of(rest) == seq![line@] + lines_of(text@.skip(i + 1)));
            }
            let ghost before = lines@;
            lines.push(line);
            assert(texts(lines@) =~= texts(before).push(line@));
            assert(texts(before) + (seq![line@] + lines_of(text@.skip(i + 1))) =~= texts(lines@)
                + lines_of(text@.skip(i + 1)));
            start = i + 1;
        }
        i += 1;
    }
    if start < n {
        let line = String::from_str(text.substring_char(start, n));
        proof {
            let rest = text@.skip(start as int);
            assert forall|j: int| 0 <= j < n - start implies rest[j] != '\n' by {
                assert(rest[j] == text@[start + j]);
            }
            lemma_first_break(rest, n - start);
            assert(rest =~= text@.subrange(start as int, n as int));
        }
        let ghost before = lines@;
        lines.push(line);
        assert(texts(lines@) =~= texts(before).push(line@));
        assert(texts(before) + seq![line@] =~= texts(lines@));
    } else {
        assert(text@.skip(start as int) =~= Seq::<char>::empty());
        assert(texts(lines@) + Seq::<Seq<char>>::empty() =~= texts(lines@));
    }
    lines
}

/// The response of a request as lines of text. A response that is no UTF-8
/// text is an error.
pub fn response_lines(payload: Vec<u8>) -> (lines: Result<Vec<String>, ExifToolError>)
    ensures
        lines is Ok <==> valid_utf8(payload@),
        lines is Ok ==> texts(lines->Ok_0@) == lines_of(decode_utf8(payload@)),
        lines is Err ==> lines->Err_0 is Utf8,
{
    match utf8_text(payload) {
        Ok(text) => Ok(split_lines(text.as_str())),
        Err(error) => Err(ExifToolError::Utf8(error)),
    }
}

} // verus!
