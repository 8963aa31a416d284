//! Cutting one response out of the output stream.
//!
//! The process ends every response with a completion marker, `{ready}`
//! followed by a line feed or by a carriage return and a line feed. The
//! framer gathers the chunks read from the stream and reports, after each
//! one, whether the bytes gathered so far end in a marker.

use vstd::prelude::*;

verus! {

/// The completion marker with a line feed: `{ready}\n`.
pub open spec fn ready_lf() -> Seq<u8> {
    seq![0x7bu8, 0x72u8, 0x65u8, 0x61u8, 0x64u8, 0x79u8, 0x7du8, 0x0au8]
}

/// The completion marker with a carriage return and a line feed: `{ready}\r\n`.
pub open spec fn ready_crlf() -> Seq<u8> {
    seq![0x7bu8, 0x72u8, 0x65u8, 0x61u8, 0x64u8, 0x79u8, 0x7du8, 0x0du8, 0x0au8]
}

/// `stream` ends in `marker`.
pub open spec fn ends_with(stream: Seq<u8>, marker: Seq<u8>) -> bool {
    stream.len() >= marker.len() && stream.subrange(stream.len() - marker.len(), stream.len() as int)
        == marker
}

/// `marker` stands in `stream` at offset `at`.
pub open spec fn occurs_at(stream: Seq<u8>, marker: Seq<u8>, at: int) -> bool {
    0 <= at && at + marker.len() <= stream.len() && stream.subrange(at, at + marker.len()) == marker
}

/// Either form of the completion marker stands somewhere in `stream`.
pub open spec fn contains_marker(stream: Seq<u8>) -> bool {
    exists|at: int| occurs_at(stream, ready_lf(), at) || occurs_at(stream, ready_crlf(), at)
}

/// How many bytes at the end of `stream` belong to a completion marker: 0
/// when it ends in neither form.
pub open spec fn marker_len(stream: Seq<u8>) -> nat {
    if ends_with(stream, ready_crlf()) {
        9
    } else if ends_with(stream, ready_lf()) {
        8
    } else {
        0
    }
}

/// The bytes gathered so far end in a completion marker.
pub open spec fn is_complete(stream: Seq<u8>) -> bool {
    marker_len(stream) > 0
}

/// What precedes the completion marker at the end of `stream`.
pub open spec fn payload_of(stream: Seq<u8>) -> Seq<u8> {
    stream.take(stream.len() - marker_len(stream))
}

/// What the framer knows after one read from the output stream.
#[derive(Debug)]
pub enum FrameStep {
    /// No marker yet: read another chunk.
    Pending,
    /// The response is whole; these are its bytes, without the marker.
    Complete(Vec<u8>),
    /// The read returned no bytes: the stream was closed before a marker came.
    StreamClosed,
}

/// Gathers the chunks of one response.
#[derive(Debug)]
pub struct ResponseFramer {
    buffer: Vec<u8>,
}

impl View for ResponseFramer {
    type V = Seq<u8>;

    /// The bytes received since the last complete response.
    closed spec fn view(&self) -> Seq<u8> {
        self.buffer@
    }
}

fn lf_marker() -> (marker: Vec<u8>)
    ensures
        marker@ == ready_lf(),
{
    let marker = vec![0x7bu8, 0x72u8, 0x65u8, 0x61u8, 0x64u8, 0x79u8, 0x7du8, 0x0au8];
    assert(marker@ =~= ready_lf());
    marker
}

fn crlf_marker() -> (marker: Vec<u8>)
    ensures
        marker@ == ready_crlf(),
{
    let marker = vec![0x7bu8, 0x72u8, 0x65u8, 0x61u8, 0x64u8, 0x79u8, 0x7du8, 0x0du8, 0x0au8];
    assert(marker@ =~= ready_crlf());
    marker
}

fn has_suffix(stream: &Vec<u8>, marker: &Vec<u8>) -> (found: bool)
    ensures
        found == ends_with(stream@, marker@),
{
    let n: usize = stream.len();
    let m: usize = marker.len();
    if n < m {
        return false;
    }
    let start: usize = n - m;
    let mut i: usize = 0;
    while i < m
        invariant
            i <= m,
            m == marker.len(),
            n == stream.len(),
            start == n - m,
            forall|j: int| 0 <= j < i ==> stream@[start + j] == marker@[j],
        decreases m - i,
    {
        if stream[start + i] != marker[i] {
            assert(stream@.subrange(start as int, n as int)[i as int] == stream@[start + i]);
            return false;
        }
        i += 1;
    }
    assert(stream@.subrange(start as int, n as int) =~= marker@);
    true
}

impl ResponseFramer {
    /// A framer that has received nothing.
    pub fn new() -> (framer: Self)
        ensures
            framer@ == Seq::<u8>::empty(),
    {
        ResponseFramer { buffer: Vec::new() }
    }

    /// Takes in the bytes of one read.
    ///
    /// An empty chunk is a read at the end of the stream and is reported as
    /// `StreamClosed`, whatever was gathered before. Otherwise the chunk is
    /// appended; if the bytes gathered then end in a completion marker, the
    /// response is everything before it and the framer starts afresh.
    pub fn feed(&mut self, chunk: &[u8]) -> (step: FrameStep)
        ensures
            chunk@.len() == 0 ==> step is StreamClosed && final(self)@ == old(self)@,
            chunk@.len() > 0 && is_complete(old(self)@ + chunk@) ==> step is Complete
                && step->Complete_0@ == payload_of(old(self)@ + chunk@) && final(self)@
                == Seq::<u8>::empty(),
            chunk@.len() > 0 && !is_complete(old(self)@ + chunk@) ==> step is Pending
                && final(self)@ == old(self)@ + chunk@,
    {
        if chunk.len() == 0 {
            return FrameStep::StreamClosed;
        }
        self.buffer.extend_from_slice(chunk);
        let crlf = crlf_marker();
        let lf = lf_marker();
        let n: usize = self.buffer.len();
        let ends_crlf = has_suffix(&self.buffer, &crlf);
        let ends_lf = has_suffix(&self.buffer, &lf);
        let cut: usize = if ends_crlf {
            9
        } else if ends_lf {
            8
        } else {
            0
        };
        assert(self.buffer@ == old(self)@ + chunk@);
        assert(cut == marker_len(self.buffer@));
        if cut == 0 {
            return FrameStep::Pending;
        }
        let mut payload: Vec<u8> = Vec::new();
        std::mem::swap(&mut self.buffer, &mut payload);
        payload.truncate(n - cut);
        FrameStep::Complete(payload)
    }
}

/// A response that is followed by a completion marker, in either form, is
/// framed as exactly that response, whatever bytes it holds.
pub proof fn lemma_frames_what_precedes_marker(response: Seq<u8>)
    ensures
        is_complete(response + ready_lf()),
        payload_of(response + ready_lf()) == response,
        is_complete(response + ready_crlf()),
        payload_of(response + ready_crlf()) == response,
{
    let a = response + ready_lf();
    let b = response + ready_crlf();
    assert(a.subrange(a.len() - 8, a.len() as int) =~= ready_lf());
    assert(b.subrange(b.len() - 9, b.len() as int) =~= ready_crlf());
    assert(!ends_with(a, ready_crlf())) by {
        if a.len() >= 9 {
            assert(a.subrange(a.len() - 9, a.len() as int)[7] == a[a.len() - 2]);
            assert(a[a.len() - 2] == ready_lf()[6]);
        }
    }
    assert(a.take(a.len() - 8) =~= response);
    assert(b.take(b.len() - 9) =~= response);
}

/// Where the chunks are cut does not matter: as long as the bytes gathered
/// after `first` do not end in a marker, feeding `first` and then `second`
/// leaves the framer where feeding both as one chunk would, also when the cut
/// falls inside a marker.
pub proof fn lemma_chunk_boundaries_do_not_matter(
    gathered: Seq<u8>,
    first: Seq<u8>,
    second: Seq<u8>,
)
    requires
        !is_complete(gathered + first),
    ensures
        (gathered + first) + second == gathered + (first + second),
        is_complete((gathered + first) + second) == is_complete(gathered + (first + second)),
        payload_of((gathered + first) + second) == payload_of(gathered + (first + second)),
{
    assert((gathered + first) + second =~= gathered + (first + second));
}

/// A framed response holds no completion marker, provided that no marker
/// ends before the end of the bytes gathered.
pub proof fn lemma_payload_holds_no_marker(stream: Seq<u8>)
    requires
        is_complete(stream),
        forall|k: int| 0 <= k < stream.len() ==> !is_complete(#[trigger] stream.take(k)),
    ensures
        !contains_marker(payload_of(stream)),
{
    let payload = payload_of(stream);
    assert forall|at: int|
        !(occurs_at(payload, ready_lf(), at) || occurs_at(payload, ready_crlf(), at)) by {
        if occurs_at(payload, ready_lf(), at) {
            let k = at + 8;
            let prefix = stream.take(k);
            assert(prefix.subrange(prefix.len() - 8, prefix.len() as int) =~= payload.subrange(
                at,
                at + 8,
            ));
            assert(ends_with(prefix, ready_lf()));
            assert(is_complete(prefix));
        }
        if occurs_at(payload, ready_crlf(), at) {
            let k = at + 9;
            let prefix = stream.take(k);
            assert(prefix.subrange(prefix.len() - 9, prefix.len() as int) =~= payload.subrange(
                at,
                at + 9,
            ));
            assert(ends_with(prefix, ready_crlf()));
            assert(is_complete(prefix));
        }
    }
}

} // verus!
