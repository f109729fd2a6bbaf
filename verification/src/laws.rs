//! What holds of every run, whatever its driver replies.

use crate::config::{ConfigView, DestinationView, InputFormat, OutputFormat};
use crate::model::{
    advanced, advanced_needs_driver, answer, initial, transition, PhaseView, State,
};
use crate::outcome::Outcome;
use crate::protocol::{FindingView, ReplyView, ReportView, RequestView};
use crate::run::{driven, last_read, reads, renderings, run, writes, Run, WriteView};
use crate::text::{joined, normalized, terminated};
use hurl_core::parser::Error;
use vstd::prelude::*;

verus! {

/// The number of inputs that a run in this state has asked to read.
pub open spec fn inputs_read(state: State) -> nat {
    if state.position < state.config.inputs.len() {
        state.position + 1
    } else {
        state.config.inputs.len()
    }
}

/// The write that puts a rendering back over the input it was made from.
pub open spec fn write_back(config: ConfigView, outputs: Seq<Seq<char>>, index: int) -> WriteView {
    WriteView { target: config.inputs[index].path(), content: normalized(outputs[index]) }
}

/// The text that was handed to the parser in a state that waits for it.
pub open spec fn parsed_text(state: State) -> Seq<char> {
    match state.phase {
        PhaseView::Parsing { raw, adapted } => match adapted {
            Some(text) => text,
            None => raw,
        },
        _ => Seq::empty(),
    }
}

/// How many renderings a run has taken, by its state.
spec fn counted(run: Run) -> bool {
    let state = run.state;
    let inputs = state.config.inputs.len();
    let taken = renderings(run.replies).len();
    match state.phase {
        PhaseView::WritingInPlace => taken == state.position + 1,
        PhaseView::Finished(outcome) => {
            &&& taken == state.position || (state.config.in_place() && state.position < inputs
                && taken == state.position + 1)
            &&& outcome == Outcome::AllOk && !state.config.check ==> state.position == inputs
            &&& outcome == Outcome::InvalidInput ==> state.position < inputs
        },
        _ => taken == state.position,
    }
}

/// What a run has written, by its destination.
spec fn written(run: Run) -> bool {
    let state = run.state;
    let outputs = renderings(run.replies);
    match state.config.destination {
        DestinationView::Combined(target) => {
            &&& state.output == joined(outputs)
            &&& writes(run.requests) == if state.position == state.config.inputs.len() {
                seq![WriteView { target, content: normalized(joined(outputs)) }]
            } else {
                Seq::empty()
            }
        },
        DestinationView::InPlace => writes(run.requests) == Seq::new(
            outputs.len(),
            |i: int| write_back(state.config, outputs, i),
        ),
    }
}

/// What the last request of a run is, by its state.
spec fn asked(run: Run) -> bool {
    let last = run.requests.last();
    &&& forall|i: int| 0 <= i < run.requests.len() - 1 ==> !(#[trigger] run.requests[i] is Finish)
    &&& match run.state.phase {
        PhaseView::Adapting { raw } => {
            &&& last == (RequestView::Adapt { text: raw })
            &&& last_read(run.replies) == Some(raw)
        },
        PhaseView::Parsing { raw, adapted } => {
            &&& last == (RequestView::Parse { text: parsed_text(run.state) })
            &&& last_read(run.replies) == Some(raw)
            &&& adapted matches Some(text) ==> run.replies.len() > 0 && run.replies.last()
                == ReplyView::Adapted(Ok(text))
        },
        PhaseView::Linting { raw } => {
            &&& last matches RequestView::Lint { document }
            &&& run.replies.len() > 0
            &&& run.replies.last() == ReplyView::Parsed(Ok(document))
            &&& last_read(run.replies) == Some(raw)
        },
        PhaseView::Canonicalizing => {
            &&& last matches RequestView::Canonicalize { document }
            &&& run.replies.len() > 0
            &&& run.replies.last() == ReplyView::Parsed(Ok(document))
        },
        PhaseView::Rendering => {
            &&& run.replies.len() > 0
            &&& match last {
                RequestView::ToHurl { document, color } => {
                    &&& run.replies.last() == ReplyView::Canonical(document)
                    &&& run.state.config.output_format == OutputFormat::Hurl
                    &&& color == run.state.config.color
                },
                RequestView::ToJson { document } => {
                    &&& run.replies.last() == ReplyView::Parsed(Ok(document))
                    &&& run.state.config.output_format == OutputFormat::Json
                },
                RequestView::ToHtml { document, standalone } => {
                    &&& run.replies.last() == ReplyView::Parsed(Ok(document))
                    &&& run.state.config.output_format == OutputFormat::Html
                    &&& standalone == run.state.config.standalone
                },
                _ => false,
            }
        },
        PhaseView::Finished(outcome) => {
            &&& last matches RequestView::Finish { outcome: ended, report }
            &&& ended == outcome
            &&& ended == report.outcome()
            &&& report is Lint ==> run.state.config.check
        },
        _ => !(last is Finish),
    }
}

/// What holds of a run at every step.
spec fn steady(config: ConfigView, run: Run) -> bool {
    &&& run.state.wf()
    &&& run.state.config == config
    &&& run.requests.len() == run.replies.len() + 1
    &&& reads(run.requests) == config.inputs.take(inputs_read(run.state) as int)
    &&& config.check ==> forall|i: int|
        0 <= i < run.requests.len() ==> !(#[trigger] run.requests[i]).is_render()
    &&& counted(run)
    &&& written(run)
    &&& asked(run)
}

/// The reads of one more request.
proof fn reads_push(requests: Seq<RequestView>, request: RequestView)
    ensures
        reads(requests.push(request)) == match request {
            RequestView::Read { input } => reads(requests).push(input),
            _ => reads(requests),
        },
{
    assert(requests.push(request).drop_last() =~= requests);
}

/// The writes of one more request.
proof fn writes_push(requests: Seq<RequestView>, request: RequestView)
    ensures
        writes(requests.push(request)) == match request {
            RequestView::Write { target, content } => writes(requests).push(
                WriteView { target, content },
            ),
            _ => writes(requests),
        },
{
    assert(requests.push(request).drop_last() =~= requests);
}

/// The renderings of one more reply.
proof fn renderings_push(replies: Seq<ReplyView>, reply: ReplyView)
    ensures
        renderings(replies.push(reply)) == match reply {
            ReplyView::Rendered(rendering) => renderings(replies).push(rendering),
            _ => renderings(replies),
        },
{
    assert(replies.push(reply).drop_last() =~= replies);
}

/// The content read last after one more reply.
proof fn last_read_push(replies: Seq<ReplyView>, reply: ReplyView)
    ensures
        last_read(replies.push(reply)) == match reply {
            ReplyView::Source(Ok(content)) => Some(content),
            _ => last_read(replies),
        },
{
    assert(replies.push(reply).drop_last() =~= replies);
}

/// A run starts steady.
proof fn steady_at_start(config: ConfigView)
    requires
        config.valid(),
    ensures
        steady(config, run(config, Seq::empty())),
{
    let start = run(config, Seq::empty());
    let first = initial(config).1;
    reads_push(Seq::empty(), first);
    writes_push(Seq::empty(), first);
    if config.inputs.len() > 0 {
        assert(reads(start.requests) =~= config.inputs.take(1));
    } else {
        assert(reads(start.requests) =~= config.inputs.take(0));
    }
    assert(written(start)) by {
        match config.destination {
            DestinationView::Combined(target) => {
                if config.inputs.len() == 0 {
                    assert(writes(start.requests) =~= seq![
                        WriteView { target, content: normalized(joined(Seq::empty())) },
                    ]);
                }
            },
            DestinationView::InPlace => {
                assert(writes(start.requests) =~= Seq::new(
                    0,
                    |i: int| write_back(config, Seq::empty(), i),
                ));
            },
        }
    }
}

/// A step keeps a run steady.
proof fn steady_after_step(config: ConfigView, before: Run, reply: ReplyView)
    requires
        steady(config, before),
    ensures
        steady(config, before.take(reply)),
{
    let after = before.take(reply);
    if let Some((state, request)) = transition(before.state, reply) {
        let inputs = config.inputs.len();
        let outputs = renderings(before.replies);
        reads_push(before.requests, request);
        writes_push(before.requests, request);
        renderings_push(before.replies, reply);
        last_read_push(before.replies, reply);
        assert(reads(after.requests) == config.inputs.take(inputs_read(state) as int)) by {
            if request is Read {
                let next = (before.state.position + 1) as int;
                assert(next < inputs);
                assert(config.inputs.take(next).push(config.inputs[next]) =~= config.inputs.take(
                    next + 1,
                ));
            }
        }
        assert(written(after)) by {
            match config.destination {
                DestinationView::Combined(target) => {
                    if let ReplyView::Rendered(rendering) = reply {
                        crate::text::joined_push(outputs, rendering);
                        if before.state.position + 1 == inputs {
                            assert(writes(after.requests) =~= seq![
                                WriteView {
                                    target,
                                    content: normalized(joined(outputs.push(rendering))),
                                },
                            ]);
                        }
                    }
                },
                DestinationView::InPlace => {
                    if let ReplyView::Rendered(rendering) = reply {
                        let longer = outputs.push(rendering);
                        assert(writes(after.requests) =~= Seq::new(
                            longer.len(),
                            |i: int| write_back(config, longer, i),
                        ));
                    }
                },
            }
        }
    }
}

/// Every run of a valid configuration is steady.
proof fn steady_run(config: ConfigView, offered: Seq<ReplyView>)
    requires
        config.valid(),
    ensures
        steady(config, run(config, offered)),
    decreases offered.len(),
{
    if offered.len() == 0 {
        steady_at_start(config);
    } else {
        steady_run(config, offered.drop_last());
        steady_after_step(config, run(config, offered.drop_last()), offered.last());
    }
}

/// Offering a run one more reply is taking it after the others.
pub proof fn run_push(config: ConfigView, offered: Seq<ReplyView>, reply: ReplyView)
    ensures
        run(config, offered.push(reply)) == run(config, offered).take(reply),
{
    assert(offered.push(reply).drop_last() =~= offered);
}

/// The replies that a run has taken give the same run when they are
/// offered again.
proof fn replay(config: ConfigView, before: Run, reply: ReplyView)
    requires
        run(config, before.replies) == before,
    ensures
        run(config, before.take(reply).replies) == before.take(reply),
{
    if transition(before.state, reply) is Some {
        run_push(config, before.replies, reply);
    }
}

/// A run that leaves HTML rendering to the pipeline is a run
/// like any other: it is the run whose driver offers the replies that it
/// took, those made from within among them. So what holds of every run
/// holds of it.
pub proof fn driven_is_a_run(config: ConfigView, offered: Seq<ReplyView>)
    ensures
        run(config, driven(config, offered).replies) == driven(config, offered),
    decreases offered.len(),
{
    if offered.len() == 0 {
    } else {
        let before = driven(config, offered.drop_last());
        driven_is_a_run(config, offered.drop_last());
        if transition(before.state, offered.last()) is Some {
            let taken = before.take(offered.last());
            replay(config, before, offered.last());
            if let Some(reply) = answer(taken.requests.last()) {
                replay(config, taken, reply);
            }
        }
    }
}

/// Each step of a run that leaves HTML rendering to the pipeline is one
/// [`advanced`] step: the state it reaches and the request
/// it makes last are those that the step gives.
pub proof fn driven_follows_advance(config: ConfigView, offered: Seq<ReplyView>, reply: ReplyView)
    ensures
        driven(config, offered).requests.len() > 0,
        driven(config, offered.push(reply)).state == advanced(
            driven(config, offered).state,
            reply,
        ).0,
        advanced(driven(config, offered).state, reply).1 matches Some(request) ==> driven(
            config,
            offered.push(reply),
        ).requests.last() == request,
        advanced(driven(config, offered).state, reply).1 is None ==> driven(
            config,
            offered.push(reply),
        ) == driven(config, offered),
{
    assert(offered.push(reply).drop_last() =~= offered);
    driven_makes_requests(config, offered);
}

/// A run that leaves HTML rendering to the pipeline never waits for it: its
/// last request is always one for the driver.
pub proof fn driven_waits_for_its_driver(config: ConfigView, offered: Seq<ReplyView>)
    requires
        config.valid(),
    ensures
        answer(driven(config, offered).requests.last()) is None,
    decreases offered.len(),
{
    if offered.len() > 0 {
        let earlier = offered.drop_last();
        driven_waits_for_its_driver(config, earlier);
        driven_is_a_run(config, earlier);
        steady_run(config, driven(config, earlier).replies);
        driven_follows_advance(config, earlier, offered.last());
        advanced_needs_driver(driven(config, earlier).state, offered.last());
    }
}

/// A run has made a request from its start.
proof fn driven_makes_requests(config: ConfigView, offered: Seq<ReplyView>)
    ensures
        driven(config, offered).requests.len() > 0,
    decreases offered.len(),
{
    if offered.len() > 0 {
        driven_makes_requests(config, offered.drop_last());
    }
}

/// A run is well-formed throughout, keeps its configuration, and has made
/// one request more than it has taken replies.
pub proof fn run_is_well_formed(config: ConfigView, offered: Seq<ReplyView>)
    requires
        config.valid(),
    ensures
        run(config, offered).state.wf(),
        run(config, offered).state.config == config,
        run(config, offered).requests.len() == run(config, offered).replies.len() + 1,
{
    steady_run(config, offered);
}

/// A clean check succeeds and warns of nothing; a check with findings
/// fails with the status for lint issues and reports each finding once.
///
/// In a run that waits for the findings of the linter, the reply ends the
/// run. The outcome is success exactly where there is no finding, and lint
/// issues otherwise. The report holds the findings as they came, in order,
/// with the input that was linted and its content as it was read.
pub proof fn check_reports_each_finding(
    config: ConfigView,
    offered: Seq<ReplyView>,
    findings: Seq<FindingView>,
)
    requires
        config.valid(),
        run(config, offered).state.phase is Linting,
    ensures
        config.check,
        run(config, offered).state.position == 0,
        last_read(run(config, offered).replies) is Some,
        run(config, offered.push(ReplyView::Findings(findings))).requests.last() == (
        RequestView::Finish {
            outcome: if findings.len() == 0 {
                Outcome::AllOk
            } else {
                Outcome::LintIssuesFound
            },
            report: ReportView::Lint {
                input: config.inputs[0],
                text: last_read(run(config, offered).replies)->Some_0,
                findings,
            },
        }),
        Outcome::AllOk.status() == 0,
        Outcome::LintIssuesFound.status() == 3,
{
    steady_run(config, offered);
    assert(offered.push(ReplyView::Findings(findings)).drop_last() =~= offered);
}

/// A text that fails to parse ends the run as invalid input, in a check as
/// in any other run, and the error is reported with the text that the
/// parser was given.
///
/// In a run that waits for the parser, the last request holds the text to
/// parse: the input as it was read, or, where the inputs are curl command
/// lines, the text that the adapter gave for it. When the parser rejects
/// it, the run ends with the status for invalid input, and the report holds
/// that same text, the input and the error.
pub proof fn syntax_error_refers_to_parsed_text(
    config: ConfigView,
    offered: Seq<ReplyView>,
    error: Error,
)
    requires
        config.valid(),
        run(config, offered).state.phase is Parsing,
    ensures
        run(config, offered).requests.last() == (RequestView::Parse {
            text: parsed_text(run(config, offered).state),
        }),
        config.input_format == InputFormat::Hurl ==> Some(parsed_text(run(config, offered).state))
            == last_read(run(config, offered).replies),
        config.input_format == InputFormat::Curl ==> run(config, offered).replies.len() > 0 && run(
            config,
            offered,
        ).replies.last() == ReplyView::Adapted(Ok(parsed_text(run(config, offered).state))),
        run(config, offered.push(ReplyView::Parsed(Err(error)))).requests.last() == (
        RequestView::Finish {
            outcome: Outcome::InvalidInput,
            report: ReportView::Syntax {
                input: run(config, offered).state.current(),
                text: parsed_text(run(config, offered).state),
                error,
            },
        }),
        Outcome::InvalidInput.status() == 2,
{
    steady_run(config, offered);
    assert(offered.push(ReplyView::Parsed(Err(error))).drop_last() =~= offered);
}

/// With one destination for all renderings, nothing is written before
/// every input is rendered, and then exactly one write is asked for: to
/// the destination, which is standard output where no path is configured,
/// of the renderings joined in the order of the inputs.
pub proof fn combined_run_writes_once(
    config: ConfigView,
    offered: Seq<ReplyView>,
    target: Option<Seq<char>>,
)
    requires
        config.valid(),
        config.destination == DestinationView::Combined(target),
    ensures
        run(config, offered).state.position < config.inputs.len() ==> writes(
            run(config, offered).requests,
        ) == Seq::<WriteView>::empty(),
        run(config, offered).state.position == config.inputs.len() ==> writes(
            run(config, offered).requests,
        ) == seq![
            WriteView {
                target,
                content: normalized(joined(renderings(run(config, offered).replies))),
            },
        ],
        run(config, offered).state.position == config.inputs.len() && !config.check
            ==> renderings(run(config, offered).replies).len() == config.inputs.len(),
        run(config, offered).state.phase == PhaseView::Finished(Outcome::AllOk) && !config.check
            ==> run(config, offered).state.position == config.inputs.len(),
{
    steady_run(config, offered);
}

/// In place, every rendering is written over the file its input was read
/// from, as soon as it is there, and nothing is collected: the writes are,
/// in order, one for each rendering, each to the path of the input at the
/// same index. A run that succeeds has written every input.
pub proof fn in_place_run_writes_each_input(config: ConfigView, offered: Seq<ReplyView>)
    requires
        config.valid(),
        config.destination == DestinationView::InPlace,
    ensures
        renderings(run(config, offered).replies).len() <= config.inputs.len(),
        writes(run(config, offered).requests) == Seq::new(
            renderings(run(config, offered).replies).len(),
            |i: int| write_back(config, renderings(run(config, offered).replies), i),
        ),
        forall|i: int|
            0 <= i < config.inputs.len() ==> (#[trigger] config.inputs[i]).path() is Some,
        run(config, offered).state.output == Seq::<char>::empty(),
        run(config, offered).state.phase == PhaseView::Finished(Outcome::AllOk) ==> renderings(
            run(config, offered).replies,
        ).len() == config.inputs.len(),
{
    steady_run(config, offered);
}

/// Whatever is written ends with a line terminator.
pub proof fn every_write_is_terminated(config: ConfigView, offered: Seq<ReplyView>, index: int)
    requires
        config.valid(),
        0 <= index < writes(run(config, offered).requests).len(),
    ensures
        terminated(writes(run(config, offered).requests)[index].content),
{
    steady_run(config, offered);
}

/// The inputs are read in order, one at a time, and none is read after the
/// run has ended: the reads asked for are the first inputs of the
/// configuration, up to the current one. A run that has ended takes no
/// further reply, and where it ended with an input unread, unadapted or
/// unparsed, the inputs after that one were never asked for.
pub proof fn inputs_are_read_in_order(config: ConfigView, offered: Seq<ReplyView>)
    requires
        config.valid(),
    ensures
        reads(run(config, offered).requests) == config.inputs.take(
            inputs_read(run(config, offered).state) as int,
        ),
        run(config, offered).state.phase == PhaseView::Finished(Outcome::InvalidInput)
            ==> run(config, offered).state.position < config.inputs.len(),
        run(config, offered).state.phase is Finished ==> forall|reply: ReplyView|
            transition(run(config, offered).state, reply) is None,
{
    steady_run(config, offered);
}

/// The end of a run is asked for once, as its last request, and only then
/// is the run over. The outcome that it is asked with is the outcome of the
/// run, and the one that its report calls for: so there are lint issues
/// only after a check that parsed its input and has findings to report.
pub proof fn finish_is_the_last_request(config: ConfigView, offered: Seq<ReplyView>)
    requires
        config.valid(),
    ensures
        run(config, offered).requests.last() is Finish <==> run(config, offered).state.phase
            is Finished,
        run(config, offered).state.phase matches PhaseView::Finished(outcome) ==> run(
            config,
            offered,
        ).requests.last()->Finish_outcome == outcome,
        run(config, offered).requests.last() matches RequestView::Finish { outcome, report }
            ==> outcome == report.outcome(),
        run(config, offered).state.phase == PhaseView::Finished(Outcome::LintIssuesFound)
            ==> config.check && run(config, offered).requests.last()->Finish_report is Lint,
        forall|i: int|
            0 <= i < run(config, offered).requests.len() - 1 ==> !(#[trigger] run(
                config,
                offered,
            ).requests[i] is Finish),
{
    steady_run(config, offered);
}

/// Hurl text is rendered from the canonical document, JSON and HTML from
/// the document as it was parsed.
///
/// A run that waits for a rendering has asked for it in the configured
/// format. Where that is Hurl text, the document to render is the one that
/// the canonicalizer just gave. Where it is JSON or HTML, it is the one that
/// the parser just gave. And the canonicalizer, like the linter, is given
/// the document that the parser just gave.
pub proof fn renders_the_right_document(config: ConfigView, offered: Seq<ReplyView>)
    requires
        config.valid(),
        run(config, offered).state.phase is Rendering || run(config, offered).state.phase
            is Canonicalizing || run(config, offered).state.phase is Linting,
    ensures
        run(config, offered).replies.len() > 0,
        match run(config, offered).requests.last() {
            RequestView::ToHurl { document, color } => {
                &&& config.output_format == OutputFormat::Hurl
                &&& color == config.color
                &&& run(config, offered).replies.last() == ReplyView::Canonical(document)
            },
            RequestView::ToJson { document } => {
                &&& config.output_format == OutputFormat::Json
                &&& run(config, offered).replies.last() == ReplyView::Parsed(Ok(document))
            },
            RequestView::ToHtml { document, standalone } => {
                &&& config.output_format == OutputFormat::Html
                &&& standalone == config.standalone
                &&& run(config, offered).replies.last() == ReplyView::Parsed(Ok(document))
            },
            RequestView::Canonicalize { document } => {
                &&& config.output_format == OutputFormat::Hurl
                &&& run(config, offered).replies.last() == ReplyView::Parsed(Ok(document))
            },
            RequestView::Lint { document } => {
                &&& config.check
                &&& run(config, offered).replies.last() == ReplyView::Parsed(Ok(document))
            },
            _ => false,
        },
{
    steady_run(config, offered);
}

/// A check never asks for a rendering nor for a canonical document,
/// whatever output format is configured, and takes no rendering.
pub proof fn check_never_renders(config: ConfigView, offered: Seq<ReplyView>, index: int)
    requires
        config.valid(),
        config.check,
        0 <= index < run(config, offered).requests.len(),
    ensures
        !run(config, offered).requests[index].is_render(),
        renderings(run(config, offered).replies).len() == 0,
{
    steady_run(config, offered);
}

} // verus!
