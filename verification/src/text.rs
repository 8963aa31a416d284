//! Text operations that the protocol needs, on sequences of characters.

use vstd::prelude::*;
use vstd::std_specs::iter::IteratorSpec;
use vstd::string::*;

verus! {

/// `needle` stands in `text` at offset `at`.
pub open spec fn text_at(text: Seq<char>, needle: Seq<char>, at: int) -> bool {
    0 <= at && at + needle.len() <= text.len() && text.subrange(at, at + needle.len()) == needle
}

/// `text` begins with `prefix`.
pub open spec fn has_prefix(text: Seq<char>, prefix: Seq<char>) -> bool {
    text_at(text, prefix, 0)
}

/// `needle` stands somewhere in `text`.
pub open spec fn contains_text(text: Seq<char>, needle: Seq<char>) -> bool {
    exists|at: int| text_at(text, needle, at)
}

/// The characters with the Unicode property `White_Space`.
pub open spec fn is_space(c: char) -> bool {
    let code = c as u32;
    (0x09 <= code <= 0x0d) || code == 0x20 || code == 0x85 || code == 0xa0 || code == 0x1680 || (
    0x2000 <= code <= 0x200a) || code == 0x2028 || code == 0x2029 || code == 0x202f || code
        == 0x205f || code == 0x3000
}

/// How many white-space characters `text` begins with.
pub open spec fn leading_spaces(text: Seq<char>) -> nat
    decreases text.len(),
{
    if text.len() > 0 && is_space(text[0]) {
        1 + leading_spaces(text.drop_first())
    } else {
        0
    }
}

/// How many white-space characters `text` ends with.
pub open spec fn trailing_spaces(text: Seq<char>) -> nat
    decreases text.len(),
{
    if text.len() > 0 && is_space(text.last()) {
        1 + trailing_spaces(text.drop_last())
    } else {
        0
    }
}

/// `text` without the white space at its two ends.
pub open spec fn trimmed(text: Seq<char>) -> Seq<char> {
    if leading_spaces(text) >= text.len() {
        Seq::empty()
    } else {
        text.subrange(leading_spaces(text) as int, text.len() - trailing_spaces(text))
    }
}

/// The parts in order, with `sep` between each two neighbours.
pub open spec fn joined(parts: Seq<Seq<char>>, sep: Seq<char>) -> Seq<char>
    decreases parts.len(),
{
    if parts.len() == 0 {
        Seq::empty()
    } else if parts.len() == 1 {
        parts[0]
    } else {
        joined(parts.drop_last(), sep) + sep + parts.last()
    }
}

/// The strings of `items` as sequences of characters.
pub open spec fn texts(items: Seq<String>) -> Seq<Seq<char>> {
    Seq::new(items.len(), |i: int| items[i]@)
}

proof fn lemma_leading_spaces(text: Seq<char>, count: int)
    requires
        0 <= count <= text.len(),
        forall|j: int| 0 <= j < count ==> is_space(text[j]),
        count == text.len() || !is_space(text[count]),
    ensures
        leading_spaces(text) == count,
    decreases count,
{
    if count > 0 {
        let rest = text.drop_first();
        assert forall|j: int| 0 <= j < count - 1 implies is_space(rest[j]) by {
            assert(rest[j] == text[j + 1]);
        }
        if count < text.len() {
            assert(rest[count - 1] == text[count]);
        }
        lemma_leading_spaces(rest, count - 1);
    }
}

proof fn lemma_trailing_spaces(text: Seq<char>, count: int)
    requires
        0 <= count <= text.len(),
        forall|j: int| text.len() - count <= j < text.len() ==> is_space(text[j]),
        count == text.len() || !is_space(text[text.len() - count - 1]),
    ensures
        trailing_spaces(text) == count,
    decreases count,
{
    if count > 0 {
        let rest = text.drop_last();
        assert forall|j: int| rest.len() - (count - 1) <= j < rest.len() implies is_space(
            rest[j],
        ) by {
            assert(rest[j] == text[j]);
        }
        if count < text.len() {
            assert(rest[rest.len() - (count - 1) - 1] == text[text.len() - count - 1]);
        }
        lemma_trailing_spaces(rest, count - 1);
    }
}

/// The characters of `text`, one by one.
pub fn to_chars(text: &str) -> (chars: Vec<char>)
    ensures
        chars@ == text@,
{
    let mut chars: Vec<char> = Vec::new();
    let mut rest = text.chars();
    assert(chars@ + rest.remaining() =~= text@);
    loop
        invariant
            chars@ + rest.remaining() == text@,
            rest.obeys_prophetic_iter_laws(),
            rest.decrease() is Some,
        ensures
            chars@ == text@,
        decreases rest.decrease()->0,
    {
        let ghost before = rest.remaining();
        let ghost held = chars@;
        match rest.next() {
            Some(c) => {
                chars.push(c);
                assert(held.push(c) + before.drop_first() =~= held + before);
            },
            None => {
                assert(held + before =~= held);
                break ;
            },
        }
    }
    chars
}

fn matches_at(text: &Vec<char>, needle: &Vec<char>, at: usize) -> (found: bool)
    requires
        at + needle.len() <= text.len(),
    ensures
        found == text_at(text@, needle@, at as int),
{
    let m: usize = needle.len();
    let mut j: usize = 0;
    while j < m
        invariant
            j <= m,
            m == needle.len(),
            at + m <= text.len(),
            forall|k: int| 0 <= k < j ==> text@[at + k] == needle@[k],
        decreases m - j,
    {
        if text[at + j] != needle[j] {
            assert(text@.subrange(at as int, at + m)[j as int] == text@[at + j]);
            return false;
        }
        j += 1;
    }
    assert(text@.subrange(at as int, at + m) =~= needle@);
    true
}

/// Whether `text` begins with `prefix`.
pub fn starts_with(text: &str, prefix: &str) -> (found: bool)
    ensures
        found == has_prefix(text@, prefix@),
{
    let chars = to_chars(text);
    let wanted = to_chars(prefix);
    if wanted.len() > chars.len() {
        return false;
    }
    matches_at(&chars, &wanted, 0)
}

/// What follows `prefix` in `text`, where `text` begins with it.
pub fn strip_prefix(text: &str, prefix: &str) -> (rest: Option<String>)
    ensures
        has_prefix(text@, prefix@) ==> rest is Some && rest->Some_0@ == text@.skip(
            prefix@.len() as int,
        ),
        !has_prefix(text@, prefix@) ==> rest is None,
{
    if !starts_with(text, prefix) {
        return None;
    }
    let from: usize = prefix.unicode_len();
    let to: usize = text.unicode_len();
    let rest = String::from_str(text.substring_char(from, to));
    assert(text@.subrange(from as int, to as int) =~= text@.skip(from as int));
    Some(rest)
}

/// Whether `needle` stands somewhere in `text`.
pub fn contains(text: &str, needle: &str) -> (found: bool)
    ensures
        found == contains_text(text@, needle@),
{
    let chars = to_chars(text);
    let wanted = to_chars(needle);
    if wanted.len() > chars.len() {
        return false;
    }
    let last: usize = chars.len() - wanted.len();
    let mut at: usize = 0;
    while at < last
        invariant
            at <= last,
            last == chars.len() - wanted.len(),
            wanted.len() <= chars.len(),
            chars@ == text@,
            wanted@ == needle@,
            forall|k: int| 0 <= k < at ==> !text_at(chars@, wanted@, k),
        decreases last - at,
    {
        if matches_at(&chars, &wanted, at) {
            return true;
        }
        at += 1;
    }
    matches_at(&chars, &wanted, last)
}

fn is_space_char(c: char) -> (space: bool)
    ensures
        space == is_space(c),
{
    let code: u32 = c as u32;
    (0x09 <= code && code <= 0x0d) || code == 0x20 || code == 0x85 || code == 0xa0 || code
        == 0x1680 || (0x2000 <= code && code <= 0x200a) || code == 0x2028 || code == 0x2029
        || code == 0x202f || code == 0x205f || code == 0x3000
}

/// `text` without the white space at its two ends.
pub fn trim(text: &str) -> (out: String)
    ensures
        out@ == trimmed(text@),
{
    let chars = to_chars(text);
    let n: usize = chars.len();
    let mut from: usize = 0;
    while from < n && is_space_char(chars[from])
        invariant
            from <= n,
            n == chars.len(),
            forall|j: int| 0 <= j < from ==> is_space(chars@[j]),
        decreases n - from,
    {
        from += 1;
    }
    proof {
        lemma_leading_spaces(chars@, from as int);
    }
    if from == n {
        return String::new();
    }
    let mut to: usize = n;
    while to > from && is_space_char(chars[to - 1])
        invariant
            from < to <= n,
            n == chars.len(),
            !is_space(chars@[from as int]),
            forall|j: int| to <= j < n ==> is_space(chars@[j]),
        decreases to,
    {
        to -= 1;
    }
    proof {
        lemma_trailing_spaces(chars@, n - to);
    }
    String::from_str(text.substring_char(from, to))
}

/// The parts in order, with `sep` between each two neighbours.
pub fn join(parts: &Vec<String>, sep: &str) -> (out: String)
    ensures
        out@ == joined(texts(parts@), sep@),
{
    let mut out = String::new();
    let mut i: usize = 0;
    while i < parts.len()
        invariant
            i <= parts.len(),
            out@ == joined(texts(parts@).take(i as int), sep@),
        decreases parts.len() - i,
    {
        if i > 0 {
            out.append(sep);
        }
        out.append(parts[i].as_str());
        proof {
            let upto = texts(parts@).take(i + 1);
            assert(upto.drop_last() =~= texts(parts@).take(i as int));
            assert(upto.last() == parts@[i as int]@);
            if i == 0 {
                assert(Seq::<char>::empty() + parts@[0]@ =~= parts@[0]@);
            }
        }
        i += 1;
    }
    assert(texts(parts@).take(parts.len() as int) =~= texts(parts@));
    out
}

} // verus!
