//! One request, from the lines that are written to the result that is
//! returned.
//!
//! A request goes through two stages. While it is read, chunks of the output
//! stream are handed in until the response is whole or the stream has closed.
//! While it is diagnosed, the diagnostic stream is drained; when the drain
//! stops, the lines decide between the response and an error. Each stage is a
//! value of its own, and each step uses the stage up and gives the next, so
//! that the steps cannot be taken out of order.
//!
//! Whoever owns the pipes discards the diagnostic lines that an earlier
//! request left behind, writes the lines of the request, flushes, and then
//! reads and polls as the steps ask.

use crate::command::{request_lines, spec_request_lines};
use crate::diagnostics::{
    classified,
    classify,
    closed_stream_failure,
    stream_closed_error,
    warnings,
    warnings_of,
};
use crate::drain::{
    lines_after,
    next_action,
    next_phase,
    DiagnosticDrain,
    DrainAction,
    DrainEvent,
    DrainPhase,
};
use crate::error::{ErrorView, ExifToolError};
use crate::framer::{is_complete, payload_of, FrameStep, ResponseFramer};
use crate::text::texts;
use vstd::prelude::*;

verus! {

/// A request whose response is being read.
#[derive(Debug)]
pub struct Request {
    args: Vec<String>,
    framer: ResponseFramer,
}

/// A request whose diagnostic lines are being gathered.
#[derive(Debug)]
pub struct Diagnosis {
    args: Vec<String>,
    response: Option<Vec<u8>>,
    drain: DiagnosticDrain,
}

/// What follows a chunk.
#[derive(Debug)]
pub enum ReadStep {
    /// Read another chunk and hand it in.
    More(Request),
    /// Reading is over: poll the diagnostic stream at once and hand in what
    /// it gave.
    Diagnose(Diagnosis),
}

/// What follows a poll of the diagnostic stream.
#[derive(Debug)]
pub enum DiagnosisStep {
    /// Do as the action says and hand in what the poll gave.
    More(Diagnosis, DrainAction),
    /// The request is over, with this result. The lines are the warnings
    /// that came with it, for whoever keeps a log.
    Done(Result<Vec<u8>, ExifToolError>, Vec<String>),
}

/// The result of a request as contracts speak of it.
pub open spec fn result_view(result: Result<Vec<u8>, ExifToolError>) -> Result<Seq<u8>, ErrorView> {
    match result {
        Ok(bytes) => Ok(bytes@),
        Err(error) => Err(error@),
    }
}

/// The result of a request from what was gathered: the response, or `None`
/// where the output stream closed before the completion marker; the phase in
/// which the drain stopped; the diagnostic lines; the arguments.
///
/// A stream that closed fails the request, with the lines as context. A
/// whole response is returned, warnings or not, unless a line fails the
/// request or the diagnostic stream was gone without a line.
pub open spec fn outcome_of(
    response: Option<Seq<u8>>,
    phase: DrainPhase,
    lines: Seq<Seq<char>>,
    args: Seq<Seq<char>>,
) -> Result<Seq<u8>, ErrorView> {
    match response {
        None => Err(
            closed_stream_failure(
                if phase is Failed {
                    Seq::empty()
                } else {
                    lines
                },
            ),
        ),
        Some(bytes) => if phase is Failed {
            Err(ErrorView::StderrDisconnected)
        } else {
            match classified(lines, args) {
                Some(failure) => Err(failure),
                None => Ok(bytes),
            }
        },
    }
}

/// The warnings of a request from what was gathered. A request whose output
/// stream closed, or whose diagnostic stream was gone without a line, has
/// none.
pub open spec fn logged_of(
    response: Option<Seq<u8>>,
    phase: DrainPhase,
    lines: Seq<Seq<char>>,
) -> Seq<Seq<char>> {
    if response is Some && !(phase is Failed) {
        warnings_of(lines)
    } else {
        Seq::empty()
    }
}

impl Request {
    /// The arguments of the request.
    pub closed spec fn arguments(&self) -> Seq<Seq<char>> {
        texts(self.args@)
    }

    /// The bytes of the response read so far.
    pub closed spec fn gathered(&self) -> Seq<u8> {
        self.framer@
    }

    /// A request with these arguments, of which nothing was read yet.
    pub fn new(args: Vec<String>) -> (request: Self)
        ensures
            request.arguments() == texts(args@),
            request.gathered() == Seq::<u8>::empty(),
    {
        Request { args, framer: ResponseFramer::new() }
    }

    /// The lines to write to the input stream: the arguments, one per line,
    /// then `-execute`.
    pub fn lines(&self) -> (lines: Vec<String>)
        ensures
            texts(lines@) == spec_request_lines(self.arguments()),
    {
        request_lines(&self.args)
    }

    /// Takes in the bytes of one read from the output stream.
    ///
    /// Reading goes on until the bytes read end in a completion marker. A
    /// read of no bytes means that the stream has closed: reading is over
    /// without a response.
    pub fn received(self, chunk: &[u8]) -> (step: ReadStep)
        ensures
            chunk@.len() > 0 && !is_complete(self.gathered() + chunk@) ==> step is More
                && step->More_0.arguments() == self.arguments() && step->More_0.gathered()
                == self.gathered() + chunk@,
            chunk@.len() == 0 || is_complete(self.gathered() + chunk@) ==> step is Diagnose
                && step->Diagnose_0.arguments() == self.arguments()
                && step->Diagnose_0.captured() == Seq::<Seq<char>>::empty()
                && step->Diagnose_0.phase() is Immediate,
            chunk@.len() == 0 ==> step->Diagnose_0.response() is None,
            chunk@.len() > 0 && is_complete(self.gathered() + chunk@)
                ==> step->Diagnose_0.response() == Some(payload_of(self.gathered() + chunk@)),
    {
        let mut request = self;
        match request.framer.feed(chunk) {
            FrameStep::Pending => ReadStep::More(request),
            FrameStep::Complete(payload) => ReadStep::Diagnose(
                Diagnosis {
                    args: request.args,
                    response: Some(payload),
                    drain: DiagnosticDrain::new(),
                },
            ),
            FrameStep::StreamClosed => ReadStep::Diagnose(
                Diagnosis { args: request.args, response: None, drain: DiagnosticDrain::new() },
            ),
        }
    }
}

impl Diagnosis {
    /// The arguments of the request.
    pub closed spec fn arguments(&self) -> Seq<Seq<char>> {
        texts(self.args@)
    }

    /// The response, or `None` where the output stream closed before it was
    /// whole.
    pub closed spec fn response(&self) -> Option<Seq<u8>> {
        match self.response {
            Some(bytes) => Some(bytes@),
            None => None,
        }
    }

    /// The diagnostic lines captured so far.
    pub closed spec fn captured(&self) -> Seq<Seq<char>> {
        self.drain.captured()
    }

    /// Where the drain stands.
    pub closed spec fn phase(&self) -> DrainPhase {
        self.drain.phase()
    }

    /// Takes in what the last poll of the diagnostic stream gave.
    ///
    /// As long as the drain does not stop, the next action is passed on. When
    /// it stops, the request is over and its result is decided.
    pub fn diagnosed(self, event: DrainEvent) -> (step: DiagnosisStep)
        ensures
            !(next_action(self.phase(), self.captured().len(), event) is Stop) ==> step is More
                && step->More_1 == next_action(self.phase(), self.captured().len(), event)
                && step->More_0.arguments() == self.arguments() && step->More_0.response()
                == self.response() && step->More_0.captured() == lines_after(
                self.phase(),
                self.captured(),
                event,
            ) && step->More_0.phase() == next_phase(self.phase(), self.captured().len(), event),
            next_action(self.phase(), self.captured().len(), event) is Stop ==> step is Done
                && result_view(step->Done_0) == outcome_of(
                self.response(),
                next_phase(self.phase(), self.captured().len(), event),
                lines_after(self.phase(), self.captured(), event),
                self.arguments(),
            ) && texts(step->Done_1@) == logged_of(
                self.response(),
                next_phase(self.phase(), self.captured().len(), event),
                lines_after(self.phase(), self.captured(), event),
            ),
    {
        let mut diagnosis = self;
        let action = diagnosis.drain.step(event);
        match action {
            DrainAction::Stop => {
                let Diagnosis { args, response, drain } = diagnosis;
                let drained = drain.finish();
                match response {
                    None => {
                        let lines = match drained {
                            Ok(lines) => lines,
                            Err(_) => Vec::new(),
                        };
                        assert(drained is Err ==> texts(lines@) =~= Seq::<Seq<char>>::empty());
                        let logged: Vec<String> = Vec::new();
                        assert(texts(logged@) =~= Seq::<Seq<char>>::empty());
                        DiagnosisStep::Done(Err(stream_closed_error(&lines)), logged)
                    },
                    Some(bytes) => match drained {
                        Err(error) => {
                            let logged: Vec<String> = Vec::new();
                            assert(texts(logged@) =~= Seq::<Seq<char>>::empty());
                            DiagnosisStep::Done(Err(error), logged)
                        },
                        Ok(lines) => {
                            let logged = warnings(&lines);
                            match classify(&lines, &args) {
                                Ok(()) => DiagnosisStep::Done(Ok(bytes), logged),
                                Err(error) => DiagnosisStep::Done(Err(error), logged),
                            }
                        },
                    },
                }
            },
            _ => DiagnosisStep::More(diagnosis, action),
        }
    }
}

} // verus!
