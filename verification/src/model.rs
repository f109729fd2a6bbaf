//! The pipeline as a mathematical state machine: its states, and the one
//! function that says how a reply moves it on and what it asks for next.

use crate::config::{ConfigView, DestinationView, InputFormat, InputView, OutputFormat};
use crate::document::html_of;
use crate::outcome::Outcome;
use crate::protocol::{FindingView, ReplyView, ReportView, RequestView};
use crate::text::normalized;
use hurl_core::ast::HurlFile;
use hurl_core::parser::Error;
use vstd::prelude::*;

verus! {

/// What the pipeline is waiting for, with the text it has to keep meanwhile.
pub enum PhaseView {
    /// The content of the current input.
    Reading,
    /// The Hurl text for the curl command lines that were read.
    Adapting { raw: Seq<char> },
    /// The document. `adapted` is the text the parser was given, or none
    /// where it was given the input as read.
    Parsing { raw: Seq<char>, adapted: Option<Seq<char>> },
    /// The findings of the linter.
    Linting { raw: Seq<char> },
    /// The canonical document.
    Canonicalizing,
    /// The rendering of the document.
    Rendering,
    /// The end of the write over the current input.
    WritingInPlace,
    /// The end of the write of the collected renderings.
    WritingCombined,
    /// Nothing: the run is over.
    Finished(Outcome),
}

/// The state of a run between two steps.
pub struct State {
    /// The configuration of the run.
    pub config: ConfigView,
    /// The index of the current input: as many inputs are done with.
    pub position: nat,
    /// What the run is waiting for.
    pub phase: PhaseView,
    /// The renderings collected so far, one after another.
    pub output: Seq<char>,
}

impl State {
    /// The input being processed.
    pub open spec fn current(self) -> InputView {
        self.config.inputs[self.position as int]
    }

    /// The state with another phase.
    pub open spec fn at(self, phase: PhaseView) -> State {
        State { phase, ..self }
    }

    /// Ends the run with a report, and with the outcome that the report
    /// calls for.
    pub open spec fn finish(self, report: ReportView) -> (State, RequestView) {
        (
            self.at(PhaseView::Finished(report.outcome())),
            RequestView::Finish { outcome: report.outcome(), report },
        )
    }

    /// Turns to the input at `position`. Where the inputs are used up, the
    /// collected renderings are written, or the run ends where each was
    /// written in place.
    pub open spec fn turn_to(self, position: nat) -> (State, RequestView) {
        let turned = State { position, ..self };
        if position < self.config.inputs.len() {
            (
                turned.at(PhaseView::Reading),
                RequestView::Read { input: self.config.inputs[position as int] },
            )
        } else {
            match self.config.destination {
                DestinationView::Combined(target) => (
                    turned.at(PhaseView::WritingCombined),
                    RequestView::Write { target, content: normalized(self.output) },
                ),
                DestinationView::InPlace => turned.finish(ReportView::Nothing),
            }
        }
    }

    /// The input was read, or could not be. Curl command lines go to the
    /// adapter, Hurl text goes to the parser as it is.
    pub open spec fn on_source(self, source: Result<Seq<char>, Seq<char>>) -> (
        State,
        RequestView,
    ) {
        match source {
            Err(reason) => self.finish(ReportView::Unreadable { input: self.current(), reason }),
            Ok(raw) => match self.config.input_format {
                InputFormat::Curl => (
                    self.at(PhaseView::Adapting { raw }),
                    RequestView::Adapt { text: raw },
                ),
                InputFormat::Hurl => (
                    self.at(PhaseView::Parsing { raw, adapted: None }),
                    RequestView::Parse { text: raw },
                ),
            },
        }
    }

    /// The curl command lines were adapted, or could not be.
    pub open spec fn on_adapted(self, raw: Seq<char>, adapted: Result<Seq<char>, Seq<char>>) -> (
        State,
        RequestView,
    ) {
        match adapted {
            Err(reason) => self.finish(ReportView::Malformed { reason }),
            Ok(text) => (
                self.at(PhaseView::Parsing { raw, adapted: Some(text) }),
                RequestView::Parse { text },
            ),
        }
    }

    /// The text was parsed, or rejected. An error is reported with the text
    /// that the parser was given. A document is linted in a check.
    /// Otherwise it is rendered: as JSON and as HTML the way it was parsed,
    /// as Hurl text only after it was canonicalized.
    pub open spec fn on_parsed(
        self,
        raw: Seq<char>,
        adapted: Option<Seq<char>>,
        parsed: Result<HurlFile, Error>,
    ) -> (State, RequestView) {
        match parsed {
            Err(error) => self.finish(
                ReportView::Syntax {
                    input: self.current(),
                    text: match adapted {
                        Some(text) => text,
                        None => raw,
                    },
                    error,
                },
            ),
            Ok(document) => if self.config.check {
                (self.at(PhaseView::Linting { raw }), RequestView::Lint { document })
            } else {
                self.rendered_as(document)
            },
        }
    }

    /// The document is to be rendered as the configuration says: as JSON
    /// and as HTML the way it is, as Hurl text only after it was
    /// canonicalized.
    pub open spec fn rendered_as(self, document: HurlFile) -> (State, RequestView) {
        match self.config.output_format {
            OutputFormat::Hurl => (
                self.at(PhaseView::Canonicalizing),
                RequestView::Canonicalize { document },
            ),
            OutputFormat::Json => (self.at(PhaseView::Rendering), RequestView::ToJson { document }),
            OutputFormat::Html => (
                self.at(PhaseView::Rendering),
                RequestView::ToHtml { document, standalone: self.config.standalone },
            ),
        }
    }

    /// The document was canonicalized: the canonical document is rendered
    /// as Hurl text.
    pub open spec fn on_canonical(self, document: HurlFile) -> (State, RequestView) {
        (
            self.at(PhaseView::Rendering),
            RequestView::ToHurl { document, color: self.config.color },
        )
    }

    /// The document was linted. The check ends with the first input: clean
    /// where there is no finding, with lint issues otherwise. The findings
    /// are reported with the input as it was read.
    pub open spec fn on_findings(self, raw: Seq<char>, findings: Seq<FindingView>) -> (
        State,
        RequestView,
    ) {
        self.finish(ReportView::Lint { input: self.current(), text: raw, findings })
    }

    /// The document was rendered. In place the rendering is written over
    /// the input at once. Otherwise it is collected, and the run turns to
    /// the next input.
    pub open spec fn on_rendered(self, rendering: Seq<char>) -> (State, RequestView) {
        match self.config.destination {
            DestinationView::InPlace => (
                self.at(PhaseView::WritingInPlace),
                RequestView::Write {
                    target: self.current().path(),
                    content: normalized(rendering),
                },
            ),
            DestinationView::Combined(_) => State {
                output: self.output + rendering,
                ..self
            }.turn_to(self.position + 1),
        }
    }

    /// A write over an input ended. After a failure the run ends, else it
    /// turns to the next input.
    pub open spec fn on_written_in_place(self, written: Result<(), Seq<char>>) -> (
        State,
        RequestView,
    ) {
        match written {
            Err(reason) => self.finish(
                ReportView::Unwritable { target: self.current().path(), reason },
            ),
            Ok(_) => self.turn_to(self.position + 1),
        }
    }

    /// The write of the collected renderings ended, and the run with it.
    pub open spec fn on_written_combined(self, written: Result<(), Seq<char>>) -> (
        State,
        RequestView,
    ) {
        match written {
            Err(reason) => self.finish(
                ReportView::Unwritable {
                    target: match self.config.destination {
                        DestinationView::Combined(target) => target,
                        DestinationView::InPlace => None,
                    },
                    reason,
                },
            ),
            Ok(_) => self.finish(ReportView::Nothing),
        }
    }

    /// What holds of every state of a run.
    pub open spec fn wf(self) -> bool {
        let inputs = self.config.inputs.len();
        &&& self.config.valid()
        &&& self.position <= inputs
        &&& self.config.check ==> self.position == 0 && self.output.len() == 0
        &&& self.config.in_place() ==> self.output.len() == 0
        &&& match self.phase {
            PhaseView::Reading => self.position < inputs,
            PhaseView::Adapting { .. } => self.position < inputs && self.config.input_format
                == InputFormat::Curl,
            PhaseView::Parsing { adapted, .. } => self.position < inputs && (adapted is Some
                <==> self.config.input_format == InputFormat::Curl),
            PhaseView::Linting { .. } => self.position < inputs && self.config.check,
            PhaseView::Canonicalizing => self.position < inputs && !self.config.check
                && self.config.output_format == OutputFormat::Hurl,
            PhaseView::Rendering => self.position < inputs && !self.config.check,
            PhaseView::WritingInPlace => self.position < inputs && self.config.in_place(),
            PhaseView::WritingCombined => self.position == inputs && !self.config.in_place(),
            PhaseView::Finished(_) => true,
        }
    }
}

/// The start of a run: the state before any reply, and the first request.
pub open spec fn initial(config: ConfigView) -> (State, RequestView) {
    State { config, position: 0, phase: PhaseView::Reading, output: Seq::empty() }.turn_to(0)
}

/// One step of a run: the state after the reply and the next request, or
/// none where the state is not waiting for a reply of that kind.
pub open spec fn transition(state: State, reply: ReplyView) -> Option<(State, RequestView)> {
    match (state.phase, reply) {
        (PhaseView::Reading, ReplyView::Source(source)) => Some(state.on_source(source)),
        (PhaseView::Adapting { raw }, ReplyView::Adapted(adapted)) => Some(
            state.on_adapted(raw, adapted),
        ),
        (PhaseView::Parsing { raw, adapted }, ReplyView::Parsed(parsed)) => Some(
            state.on_parsed(raw, adapted, parsed),
        ),
        (PhaseView::Linting { raw }, ReplyView::Findings(findings)) => Some(
            state.on_findings(raw, findings),
        ),
        (PhaseView::Canonicalizing, ReplyView::Canonical(document)) => Some(
            state.on_canonical(document),
        ),
        (PhaseView::Rendering, ReplyView::Rendered(rendering)) => Some(
            state.on_rendered(rendering),
        ),
        (PhaseView::WritingInPlace, ReplyView::Written(written)) => Some(
            state.on_written_in_place(written),
        ),
        (PhaseView::WritingCombined, ReplyView::Written(written)) => Some(
            state.on_written_combined(written),
        ),
        _ => None,
    }
}

/// The state after a reply, and the request that answers it: as
/// [`transition`] says where the state is waiting for the reply, else the
/// state as it was and no request.
pub open spec fn after(state: State, reply: ReplyView) -> (State, Option<RequestView>) {
    match transition(state, reply) {
        Some((next, request)) => (next, Some(request)),
        None => (state, None),
    }
}

/// The reply to the one request that needs no driver: what the HTML
/// formatter makes of the document. None for any other request.
pub open spec fn answer(request: RequestView) -> Option<ReplyView> {
    match request {
        RequestView::ToHtml { document, standalone } => Some(
            ReplyView::Rendered(html_of(document, standalone)),
        ),
        _ => None,
    }
}

/// The state and the request after a request that needs no driver was
/// answered and the reply handed in; unchanged for any other request.
pub open spec fn served(state: State, request: RequestView) -> (State, RequestView) {
    match answer(request) {
        Some(reply) => match transition(state, reply) {
            Some(next) => next,
            None => (state, request),
        },
        None => (state, request),
    }
}

/// The state after a reply and the next request that needs a driver: after
/// the step, HTML rendering is served from within.
pub open spec fn advanced(state: State, reply: ReplyView) -> (State, Option<RequestView>) {
    match transition(state, reply) {
        Some((next, request)) => (served(next, request).0, Some(served(next, request).1)),
        None => (state, None),
    }
}

/// A run starts well-formed where its configuration is valid.
pub proof fn initial_is_well_formed(config: ConfigView)
    requires
        config.valid(),
    ensures
        initial(config).0.wf(),
        initial(config).0.config == config,
{
}

/// A step keeps the state well-formed and the configuration as it is.
pub proof fn transition_keeps_well_formed(state: State, reply: ReplyView)
    requires
        state.wf(),
        transition(state, reply) is Some,
    ensures
        transition(state, reply)->Some_0.0.wf(),
        transition(state, reply)->Some_0.0.config == state.config,
{
}

/// What is left after serving needs a driver: HTML rendering leads to
/// reading, to writing or to the end.
pub proof fn advanced_needs_driver(state: State, reply: ReplyView)
    requires
        state.wf(),
    ensures
        advanced(state, reply).0.wf(),
        advanced(state, reply).1 matches Some(request) ==> answer(request) is None,
{
}

} // verus!
