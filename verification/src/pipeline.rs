//! The pipeline that a driver runs: it is started with a configuration, is
//! handed one reply after another, and answers each with the next request.

use crate::config::{
    clone_option_text, option_text, Config, ConfigError, Destination, InputFormat, OutputFormat,
};
use crate::model::{advanced, advanced_needs_driver, after, initial, PhaseView, State};
use crate::outcome::Outcome;
use crate::protocol::{option_reply, option_request, Reply, Report, Request};
use crate::text::normalize;
use hurl_core::ast::HurlFile;
use vstd::prelude::*;
use vstd::string::*;

verus! {

/// What the pipeline is waiting for, with the text it has to keep meanwhile.
enum Phase {
    Reading,
    Adapting { raw: String },
    Parsing { raw: String, adapted: Option<String> },
    Linting { raw: String },
    Canonicalizing,
    Rendering,
    WritingInPlace,
    WritingCombined,
    Finished(Outcome),
}

impl View for Phase {
    type V = PhaseView;

    closed spec fn view(&self) -> PhaseView {
        match self {
            Phase::Reading => PhaseView::Reading,
            Phase::Adapting { raw } => PhaseView::Adapting { raw: raw@ },
            Phase::Parsing { raw, adapted } => PhaseView::Parsing {
                raw: raw@,
                adapted: match adapted {
                    Some(text) => Some(text@),
                    None => None,
                },
            },
            Phase::Linting { raw } => PhaseView::Linting { raw: raw@ },
            Phase::Canonicalizing => PhaseView::Canonicalizing,
            Phase::Rendering => PhaseView::Rendering,
            Phase::WritingInPlace => PhaseView::WritingInPlace,
            Phase::WritingCombined => PhaseView::WritingCombined,
            Phase::Finished(outcome) => PhaseView::Finished(*outcome),
        }
    }
}

/// A run in progress. Its state is the [`State`] that its view gives.
pub struct Pipeline {
    config: Config,
    position: usize,
    phase: Phase,
    output: String,
}

impl View for Pipeline {
    type V = State;

    closed spec fn view(&self) -> State {
        State {
            config: self.config@,
            position: self.position as nat,
            phase: self.phase@,
            output: self.output@,
        }
    }
}

/// The state made of the parts of a pipeline.
spec fn state_of(config: Config, position: usize, phase: PhaseView, output: String) -> State {
    State { config: config@, position: position as nat, phase, output: output@ }
}

/// The state of a pipeline that waits for the parser.
spec fn parsing_state(
    config: Config,
    position: usize,
    output: String,
    raw: String,
    adapted: Option<String>,
) -> State {
    state_of(
        config,
        position,
        PhaseView::Parsing { raw: raw@, adapted: option_text(adapted) },
        output,
    )
}

/// Answers the one request that needs no driver: renders the document as
/// HTML, with `hurl_core`. There is no answer to any other request.
pub fn answer(request: &Request) -> (reply: Option<Reply>)
    ensures
        option_reply(reply) == crate::model::answer(request@),
{
    match request {
        Request::ToHtml { document, standalone } => Some(
            Reply::Rendered(hurl_core::format::format_html(document, *standalone)),
        ),
        _ => None,
    }
}

impl Pipeline {
    #[verifier::type_invariant]
    spec fn well_formed(self) -> bool {
        self@.wf()
    }

    /// Ends the run with a report.
    fn finish(config: Config, position: usize, output: String, report: Report) -> (next: (
        Pipeline,
        Option<Request>,
    ))
        requires
            state_of(config, position, PhaseView::Reading, output).finish(report@).0.wf(),
        ensures
            next.0@ == state_of(config, position, PhaseView::Reading, output).finish(report@).0,
            option_request(next.1) == Some(
                state_of(config, position, PhaseView::Reading, output).finish(report@).1,
            ),
    {
        let outcome = report.outcome();
        (
            Pipeline { config, position, phase: Phase::Finished(outcome), output },
            Some(Request::Finish { outcome, report }),
        )
    }

    /// Turns to the input at `position`.
    fn turn_to(config: Config, position: usize, output: String) -> (next: (Pipeline, Request))
        requires
            config@.valid(),
            position <= config.inputs@.len(),
            config.check ==> position == 0 && output@.len() == 0,
            config@.in_place() ==> output@.len() == 0,
        ensures
            (next.0@, next.1@) == state_of(config, position, PhaseView::Reading, output).turn_to(
                position as nat,
            ),
    {
        if position < config.inputs.len() {
            let input = config.inputs[position].clone();
            (Pipeline { config, position, phase: Phase::Reading, output }, Request::Read { input })
        } else {
            match &config.destination {
                Destination::Combined(path) => {
                    let target = clone_option_text(path);
                    let content = normalize(output.as_str());
                    (
                        Pipeline { config, position, phase: Phase::WritingCombined, output },
                        Request::Write { target, content },
                    )
                },
                Destination::InPlace => (
                    Pipeline { config, position, phase: Phase::Finished(Outcome::AllOk), output },
                    Request::Finish { outcome: Outcome::AllOk, report: Report::Nothing },
                ),
            }
        }
    }

    /// Turns to the input after the one at `position`.
    fn turn_on(config: Config, position: usize, output: String) -> (next: (
        Pipeline,
        Option<Request>,
    ))
        requires
            config@.valid(),
            position < config.inputs@.len(),
            !config.check,
            config@.in_place() ==> output@.len() == 0,
        ensures
            next.0@ == state_of(config, position, PhaseView::Reading, output).turn_to(
                position as nat + 1,
            ).0,
            option_request(next.1) == Some(
                state_of(config, position, PhaseView::Reading, output).turn_to(
                    position as nat + 1,
                ).1,
            ),
    {
        assert(position < config.inputs.len());
        let next = Pipeline::turn_to(config, position + 1, output);
        (next.0, Some(next.1))
    }

    /// Starts a run. A configuration that cannot be run is refused with the
    /// first rule that it breaks. Otherwise the run is in its initial state,
    /// and the first request comes with it.
    pub fn start(config: Config) -> (started: Result<(Pipeline, Request), ConfigError>)
        ensures
            match started {
                Ok((pipeline, request)) => config@.valid() && pipeline@.wf() && (
                    pipeline@,
                    request@,
                ) == initial(config@),
                Err(error) => config@.violation() == Some(error),
            },
    {
        match config.validate() {
            Err(error) => Err(error),
            Ok(_) => Ok(Pipeline::turn_to(config, 0, String::new())),
        }
    }

    /// Hands the pipeline the reply to its last request. Where it is
    /// waiting for a reply of that kind, it moves on as [`after`] says
    /// and answers with the next request. Otherwise it stays as it is and
    /// answers with nothing.
    pub fn step(self, reply: Reply) -> (next: (Pipeline, Option<Request>))
        ensures
            (next.0@, option_request(next.1)) == after(self@, reply@),
            next.0@.wf(),
    {
        proof {
            use_type_invariant(&self);
        }
        let Pipeline { config, position, phase, output } = self;
        match phase {
            Phase::Reading => Pipeline::reading(config, position, output, reply),
            Phase::Adapting { raw } => Pipeline::adapting(config, position, output, raw, reply),
            Phase::Parsing { raw, adapted } => Pipeline::parsing(
                config,
                position,
                output,
                raw,
                adapted,
                reply,
            ),
            Phase::Linting { raw } => Pipeline::linting(config, position, output, raw, reply),
            Phase::Canonicalizing => Pipeline::canonicalizing(config, position, output, reply),
            Phase::Rendering => Pipeline::rendering(config, position, output, reply),
            Phase::WritingInPlace => Pipeline::writing_in_place(config, position, output, reply),
            Phase::WritingCombined => Pipeline::writing_combined(config, position, output, reply),
            Phase::Finished(outcome) => (
                Pipeline { config, position, phase: Phase::Finished(outcome), output },
                None,
            ),
        }
    }

    /// Hands the pipeline a reply, as [`Pipeline::step`] does, and then
    /// serves HTML rendering from within, so that the request that comes
    /// back is one for the driver: to read, adapt, parse, lint, canonicalize,
    /// render Hurl text or JSON, write, or finish.
    pub fn advance(self, reply: Reply) -> (next: (Pipeline, Option<Request>))
        ensures
            (next.0@, option_request(next.1)) == advanced(self@, reply@),
            next.0@.wf(),
            next.1 matches Some(request) ==> crate::model::answer(request@) is None,
    {
        proof {
            use_type_invariant(&self);
            advanced_needs_driver(self@, reply@);
        }
        let next = self.step(reply);
        match next.1 {
            Some(request) => match answer(&request) {
                Some(reply) => {
                    let served = next.0.step(reply);
                    match served.1 {
                        Some(following) => (served.0, Some(following)),
                        None => (served.0, Some(request)),
                    }
                },
                None => (next.0, Some(request)),
            },
            None => (next.0, None),
        }
    }

    /// The step of a run that waits for the content of an input. Content
    /// that is read goes to the adapter where it is curl command lines, and
    /// to the parser as it is otherwise.
    fn reading(config: Config, position: usize, output: String, reply: Reply) -> (next: (
        Pipeline,
        Option<Request>,
    ))
        requires
            state_of(config, position, PhaseView::Reading, output).wf(),
        ensures
            (next.0@, option_request(next.1)) == after(
                state_of(config, position, PhaseView::Reading, output),
                reply@,
            ),
    {
        match reply {
            Reply::Source(Err(reason)) => {
                let input = config.inputs[position].clone();
                Pipeline::finish(config, position, output, Report::Unreadable { input, reason })
            },
            Reply::Source(Ok(raw)) => {
                let text = raw.clone();
                match config.input_format {
                    InputFormat::Curl => (
                        Pipeline { config, position, phase: Phase::Adapting { raw }, output },
                        Some(Request::Adapt { text }),
                    ),
                    InputFormat::Hurl => (
                        Pipeline {
                            config,
                            position,
                            phase: Phase::Parsing { raw, adapted: None },
                            output,
                        },
                        Some(Request::Parse { text }),
                    ),
                }
            },
            _ => (Pipeline { config, position, phase: Phase::Reading, output }, None),
        }
    }

    /// The step of a run that waits for the adapter.
    fn adapting(
        config: Config,
        position: usize,
        output: String,
        raw: String,
        reply: Reply,
    ) -> (next: (Pipeline, Option<Request>))
        requires
            state_of(config, position, PhaseView::Adapting { raw: raw@ }, output).wf(),
        ensures
            (next.0@, option_request(next.1)) == after(
                state_of(config, position, PhaseView::Adapting { raw: raw@ }, output),
                reply@,
            ),
    {
        match reply {
            Reply::Adapted(Err(reason)) => Pipeline::finish(
                config,
                position,
                output,
                Report::Malformed { reason },
            ),
            Reply::Adapted(Ok(adapted)) => {
                let text = adapted.clone();
                (
                    Pipeline {
                        config,
                        position,
                        phase: Phase::Parsing { raw, adapted: Some(adapted) },
                        output,
                    },
                    Some(Request::Parse { text }),
                )
            },
            _ => (Pipeline { config, position, phase: Phase::Adapting { raw }, output }, None),
        }
    }

    /// The step of a run that waits for the parser. An error is reported
    /// with the text that was parsed. A document is linted in a check, and
    /// rendered otherwise, as Hurl text only after it was canonicalized.
    fn parsing(
        config: Config,
        position: usize,
        output: String,
        raw: String,
        adapted: Option<String>,
        reply: Reply,
    ) -> (next: (Pipeline, Option<Request>))
        requires
            parsing_state(config, position, output, raw, adapted).wf(),
        ensures
            (next.0@, option_request(next.1)) == after(
                parsing_state(config, position, output, raw, adapted),
                reply@,
            ),
    {
        match reply {
            Reply::Parsed(Err(error)) => {
                let input = config.inputs[position].clone();
                let text = match adapted {
                    Some(text) => text,
                    None => raw,
                };
                Pipeline::finish(config, position, output, Report::Syntax { input, text, error })
            },
            Reply::Parsed(Ok(document)) => {
                if config.check {
                    (
                        Pipeline { config, position, phase: Phase::Linting { raw }, output },
                        Some(Request::Lint { document }),
                    )
                } else {
                    Pipeline::dispatch(config, position, output, document)
                }
            },
            _ => (
                Pipeline { config, position, phase: Phase::Parsing { raw, adapted }, output },
                None,
            ),
        }
    }

    /// Asks for the document to be rendered as the configuration says, or
    /// first to be canonicalized where that is as Hurl text.
    fn dispatch(config: Config, position: usize, output: String, document: HurlFile) -> (next: (
        Pipeline,
        Option<Request>,
    ))
        requires
            state_of(config, position, PhaseView::Reading, output).wf(),
            !config.check,
        ensures
            next.0@ == state_of(config, position, PhaseView::Reading, output).rendered_as(
                document,
            ).0,
            option_request(next.1) == Some(
                state_of(config, position, PhaseView::Reading, output).rendered_as(document).1,
            ),
    {
        match config.output_format {
            OutputFormat::Hurl => (
                Pipeline { config, position, phase: Phase::Canonicalizing, output },
                Some(Request::Canonicalize { document }),
            ),
            OutputFormat::Json => (
                Pipeline { config, position, phase: Phase::Rendering, output },
                Some(Request::ToJson { document }),
            ),
            OutputFormat::Html => {
                let standalone = config.standalone;
                (
                    Pipeline { config, position, phase: Phase::Rendering, output },
                    Some(Request::ToHtml { document, standalone }),
                )
            },
        }
    }

    /// The step of a run that waits for the linter: the check ends.
    fn linting(
        config: Config,
        position: usize,
        output: String,
        raw: String,
        reply: Reply,
    ) -> (next: (Pipeline, Option<Request>))
        requires
            state_of(config, position, PhaseView::Linting { raw: raw@ }, output).wf(),
        ensures
            (next.0@, option_request(next.1)) == after(
                state_of(config, position, PhaseView::Linting { raw: raw@ }, output),
                reply@,
            ),
    {
        match reply {
            Reply::Findings(findings) => {
                let input = config.inputs[position].clone();
                Pipeline::finish(
                    config,
                    position,
                    output,
                    Report::Lint { input, text: raw, findings },
                )
            },
            _ => (Pipeline { config, position, phase: Phase::Linting { raw }, output }, None),
        }
    }

    /// The step of a run that waits for the canonicalizer.
    fn canonicalizing(config: Config, position: usize, output: String, reply: Reply) -> (next: (
        Pipeline,
        Option<Request>,
    ))
        requires
            state_of(config, position, PhaseView::Canonicalizing, output).wf(),
        ensures
            (next.0@, option_request(next.1)) == after(
                state_of(config, position, PhaseView::Canonicalizing, output),
                reply@,
            ),
    {
        match reply {
            Reply::Canonical(document) => {
                let request = Request::ToHurl { document, color: config.color };
                (Pipeline { config, position, phase: Phase::Rendering, output }, Some(request))
            },
            _ => (Pipeline { config, position, phase: Phase::Canonicalizing, output }, None),
        }
    }

    /// The step of a run that waits for a rendering. In place it is written
    /// at once, otherwise it is collected and the next input is turned to.
    fn rendering(config: Config, position: usize, output: String, reply: Reply) -> (next: (
        Pipeline,
        Option<Request>,
    ))
        requires
            state_of(config, position, PhaseView::Rendering, output).wf(),
        ensures
            (next.0@, option_request(next.1)) == after(
                state_of(config, position, PhaseView::Rendering, output),
                reply@,
            ),
    {
        match reply {
            Reply::Rendered(rendering) => match &config.destination {
                Destination::InPlace => {
                    let target = config.inputs[position].path();
                    let content = normalize(rendering.as_str());
                    (
                        Pipeline { config, position, phase: Phase::WritingInPlace, output },
                        Some(Request::Write { target, content }),
                    )
                },
                Destination::Combined(_) => {
                    let mut output = output;
                    output.append(rendering.as_str());
                    Pipeline::turn_on(config, position, output)
                },
            },
            _ => (Pipeline { config, position, phase: Phase::Rendering, output }, None),
        }
    }

    /// The step of a run that waits for the end of a write over an input.
    fn writing_in_place(config: Config, position: usize, output: String, reply: Reply) -> (next: (
        Pipeline,
        Option<Request>,
    ))
        requires
            state_of(config, position, PhaseView::WritingInPlace, output).wf(),
        ensures
            (next.0@, option_request(next.1)) == after(
                state_of(config, position, PhaseView::WritingInPlace, output),
                reply@,
            ),
    {
        match reply {
            Reply::Written(Err(reason)) => {
                let target = config.inputs[position].path();
                Pipeline::finish(config, position, output, Report::Unwritable { target, reason })
            },
            Reply::Written(Ok(_)) => Pipeline::turn_on(config, position, output),
            _ => (Pipeline { config, position, phase: Phase::WritingInPlace, output }, None),
        }
    }

    /// The step of a run that waits for the end of the write of the
    /// collected renderings.
    fn writing_combined(config: Config, position: usize, output: String, reply: Reply) -> (next: (
        Pipeline,
        Option<Request>,
    ))
        requires
            state_of(config, position, PhaseView::WritingCombined, output).wf(),
        ensures
            (next.0@, option_request(next.1)) == after(
                state_of(config, position, PhaseView::WritingCombined, output),
                reply@,
            ),
    {
        match reply {
            Reply::Written(Err(reason)) => {
                let target = match &config.destination {
                    Destination::Combined(path) => clone_option_text(path),
                    Destination::InPlace => None,
                };
                Pipeline::finish(config, position, output, Report::Unwritable { target, reason })
            },
            Reply::Written(Ok(_)) => Pipeline::finish(config, position, output, Report::Nothing),
            _ => (Pipeline { config, position, phase: Phase::WritingCombined, output }, None),
        }
    }

    /// The outcome of the run, once it is over.
    pub fn outcome(&self) -> (outcome: Option<Outcome>)
        ensures
            outcome == match self@.phase {
                PhaseView::Finished(outcome) => Some(outcome),
                _ => None,
            },
    {
        match &self.phase {
            Phase::Finished(outcome) => Some(*outcome),
            _ => None,
        }
    }

    /// The number of inputs that the run is done with.
    pub fn position(&self) -> (position: usize)
        ensures
            position == self@.position,
    {
        self.position
    }

    /// The configuration of the run.
    pub fn config(&self) -> (config: &Config)
        ensures
            config@ == self@.config,
    {
        &self.config
    }
}

} // verus!
