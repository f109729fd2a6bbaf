//! What passes between the pipeline and its driver: the requests the
//! pipeline makes, the replies the driver gives, and the report a run ends
//! with.

use crate::config::{option_text, Input, InputView};
use crate::outcome::Outcome;
use hurl_core::ast::HurlFile;
use hurl_core::parser::Error;
use vstd::prelude::*;

verus! {

/// A place in a text, counted from 1.
#[derive(Clone, Copy, Debug, PartialEq, Eq, Structural)]
pub struct Pos {
    pub line: usize,
    pub column: usize,
}

/// One lint finding: what is wrong, and where in the text.
#[derive(Debug, PartialEq, Eq)]
pub struct Finding {
    pub start: Pos,
    pub end: Pos,
    pub message: String,
}

/// A [`Finding`] as a mathematical value.
pub struct FindingView {
    pub start: Pos,
    pub end: Pos,
    pub message: Seq<char>,
}

impl View for Finding {
    type V = FindingView;

    open spec fn view(&self) -> FindingView {
        FindingView { start: self.start, end: self.end, message: self.message@ }
    }
}

/// The findings of a list as mathematical values.
pub open spec fn findings_view(findings: Seq<Finding>) -> Seq<FindingView> {
    Seq::new(findings.len(), |i: int| findings[i]@)
}

/// The result of reading, adapting or writing, as a mathematical value.
pub open spec fn result_text(result: Result<String, String>) -> Result<Seq<char>, Seq<char>> {
    match result {
        Ok(text) => Ok(text@),
        Err(reason) => Err(reason@),
    }
}

/// The result of a write as a mathematical value.
pub open spec fn written_view(written: Result<(), String>) -> Result<(), Seq<char>> {
    match written {
        Ok(_) => Ok(()),
        Err(reason) => Err(reason@),
    }
}

/// What a run has to tell the user when it ends.
#[derive(Debug, PartialEq, Eq)]
pub enum Report {
    /// Nothing: every rendering was written.
    Nothing,
    /// The input could not be read, for the reason given.
    Unreadable { input: Input, reason: String },
    /// The curl command lines of an input are malformed, as the reason says.
    Malformed { reason: String },
    /// The parser rejected the text. The error refers to `text`, which is
    /// the text the parser was given.
    Syntax { input: Input, text: String, error: Error },
    /// The findings of the check, none where the input is clean. They
    /// refer to `text`, which is the input as it was read.
    Lint { input: Input, text: String, findings: Vec<Finding> },
    /// The destination could not be written, for the reason given.
    Unwritable { target: Option<String>, reason: String },
}

/// A [`Report`] as a mathematical value.
pub enum ReportView {
    Nothing,
    Unreadable { input: InputView, reason: Seq<char> },
    Malformed { reason: Seq<char> },
    Syntax { input: InputView, text: Seq<char>, error: Error },
    Lint { input: InputView, text: Seq<char>, findings: Seq<FindingView> },
    Unwritable { target: Option<Seq<char>>, reason: Seq<char> },
}

impl View for Report {
    type V = ReportView;

    open spec fn view(&self) -> ReportView {
        match self {
            Report::Nothing => ReportView::Nothing,
            Report::Unreadable { input, reason } => ReportView::Unreadable {
                input: input@,
                reason: reason@,
            },
            Report::Malformed { reason } => ReportView::Malformed { reason: reason@ },
            Report::Syntax { input, text, error } => ReportView::Syntax {
                input: input@,
                text: text@,
                error: *error,
            },
            Report::Lint { input, text, findings } => ReportView::Lint {
                input: input@,
                text: text@,
                findings: findings_view(findings@),
            },
            Report::Unwritable { target, reason } => ReportView::Unwritable {
                target: option_text(*target),
                reason: reason@,
            },
        }
    }
}

impl ReportView {
    /// The outcome of a run that ends with this report. Nothing to report
    /// and a check without findings are successes. A source that cannot be
    /// read, adapted or parsed is invalid input. Findings are lint issues.
    /// A destination that cannot be written is a generic error.
    pub open spec fn outcome(self) -> Outcome {
        match self {
            ReportView::Nothing => Outcome::AllOk,
            ReportView::Unreadable { .. } => Outcome::InvalidInput,
            ReportView::Malformed { .. } => Outcome::InvalidInput,
            ReportView::Syntax { .. } => Outcome::InvalidInput,
            ReportView::Lint { findings, .. } => if findings.len() == 0 {
                Outcome::AllOk
            } else {
                Outcome::LintIssuesFound
            },
            ReportView::Unwritable { .. } => Outcome::GenericError,
        }
    }
}

impl Report {
    /// The outcome of a run that ends with this report.
    pub fn outcome(&self) -> (outcome: Outcome)
        ensures
            outcome == self@.outcome(),
    {
        match self {
            Report::Nothing => Outcome::AllOk,
            Report::Unreadable { .. } => Outcome::InvalidInput,
            Report::Malformed { .. } => Outcome::InvalidInput,
            Report::Syntax { .. } => Outcome::InvalidInput,
            Report::Lint { findings, .. } => {
                if findings.len() == 0 {
                    Outcome::AllOk
                } else {
                    Outcome::LintIssuesFound
                }
            },
            Report::Unwritable { .. } => Outcome::GenericError,
        }
    }
}

/// What the pipeline asks its driver to do next.
#[derive(Debug, PartialEq, Eq)]
pub enum Request {
    /// Read the input and reply with its content.
    Read { input: Input },
    /// Adapt the curl command lines to Hurl and reply with the result.
    Adapt { text: String },
    /// Parse the text and reply with the result.
    Parse { text: String },
    /// Lint the document and reply with the findings.
    Lint { document: HurlFile },
    /// Canonicalize the document and reply with the canonical document.
    Canonicalize { document: HurlFile },
    /// Render the document as Hurl text and reply with the rendering.
    ToHurl { document: HurlFile, color: bool },
    /// Render the document as JSON and reply with the rendering.
    ToJson { document: HurlFile },
    /// Render the document as HTML and reply with the rendering.
    ToHtml { document: HurlFile, standalone: bool },
    /// Write the content to the file at the path, or to standard output
    /// where there is none, and reply with how that went.
    Write { target: Option<String>, content: String },
    /// Show the report and end the run with the outcome.
    Finish { outcome: Outcome, report: Report },
}

/// A [`Request`] as a mathematical value.
pub enum RequestView {
    Read { input: InputView },
    Adapt { text: Seq<char> },
    Parse { text: Seq<char> },
    Lint { document: HurlFile },
    Canonicalize { document: HurlFile },
    ToHurl { document: HurlFile, color: bool },
    ToJson { document: HurlFile },
    ToHtml { document: HurlFile, standalone: bool },
    Write { target: Option<Seq<char>>, content: Seq<char> },
    Finish { outcome: Outcome, report: ReportView },
}

impl View for Request {
    type V = RequestView;

    open spec fn view(&self) -> RequestView {
        match self {
            Request::Read { input } => RequestView::Read { input: input@ },
            Request::Adapt { text } => RequestView::Adapt { text: text@ },
            Request::Parse { text } => RequestView::Parse { text: text@ },
            Request::Lint { document } => RequestView::Lint { document: *document },
            Request::Canonicalize { document } => RequestView::Canonicalize {
                document: *document,
            },
            Request::ToHurl { document, color } => RequestView::ToHurl {
                document: *document,
                color: *color,
            },
            Request::ToJson { document } => RequestView::ToJson { document: *document },
            Request::ToHtml { document, standalone } => RequestView::ToHtml {
                document: *document,
                standalone: *standalone,
            },
            Request::Write { target, content } => RequestView::Write {
                target: option_text(*target),
                content: content@,
            },
            Request::Finish { outcome, report } => RequestView::Finish {
                outcome: *outcome,
                report: report@,
            },
        }
    }
}

/// An optional request as a mathematical value.
pub open spec fn option_request(request: Option<Request>) -> Option<RequestView> {
    match request {
        Some(request) => Some(request@),
        None => None,
    }
}

impl RequestView {
    /// Whether the request asks for a rendering, or for the canonical
    /// document that one is made from.
    pub open spec fn is_render(self) -> bool {
        self is Canonicalize || self is ToHurl || self is ToJson || self is ToHtml
    }
}

/// What the driver hands back after a request.
#[derive(Debug, PartialEq, Eq)]
pub enum Reply {
    /// The content of the input, or why it could not be read.
    Source(Result<String, String>),
    /// The Hurl text for the curl command lines, or why there is none.
    Adapted(Result<String, String>),
    /// The document, or the error of the parser.
    Parsed(Result<HurlFile, Error>),
    /// The findings of the linter.
    Findings(Vec<Finding>),
    /// The canonical document.
    Canonical(HurlFile),
    /// The rendering.
    Rendered(String),
    /// Nothing where the content was written, else why it was not.
    Written(Result<(), String>),
}

/// An optional reply as a mathematical value.
pub open spec fn option_reply(reply: Option<Reply>) -> Option<ReplyView> {
    match reply {
        Some(reply) => Some(reply@),
        None => None,
    }
}

/// A [`Reply`] as a mathematical value.
pub enum ReplyView {
    Source(Result<Seq<char>, Seq<char>>),
    Adapted(Result<Seq<char>, Seq<char>>),
    Parsed(Result<HurlFile, Error>),
    Findings(Seq<FindingView>),
    Canonical(HurlFile),
    Rendered(Seq<char>),
    Written(Result<(), Seq<char>>),
}

impl View for Reply {
    type V = ReplyView;

    open spec fn view(&self) -> ReplyView {
        match self {
            Reply::Source(source) => ReplyView::Source(result_text(*source)),
            Reply::Adapted(adapted) => ReplyView::Adapted(result_text(*adapted)),
            Reply::Parsed(parsed) => ReplyView::Parsed(*parsed),
            Reply::Findings(findings) => ReplyView::Findings(findings_view(findings@)),
            Reply::Canonical(document) => ReplyView::Canonical(*document),
            Reply::Rendered(rendering) => ReplyView::Rendered(rendering@),
            Reply::Written(written) => ReplyView::Written(written_view(*written)),
        }
    }
}

} // verus!
