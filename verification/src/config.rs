//! The configuration of a run: what is read, in which syntax, what is done
//! with it and where the result goes.

use crate::outcome::Outcome;
use vstd::prelude::*;

verus! {

/// The syntax the inputs are written in.
#[derive(Clone, Copy, Debug, PartialEq, Eq, Structural)]
pub enum InputFormat {
    /// Hurl, the syntax the parser reads.
    Hurl,
    /// curl command lines, which are adapted to Hurl before parsing.
    Curl,
}

/// The representation a document is rendered to.
#[derive(Clone, Copy, Debug, PartialEq, Eq, Structural)]
pub enum OutputFormat {
    /// Hurl text, after canonicalization.
    Hurl,
    /// JSON, of the document as parsed.
    Json,
    /// HTML, of the document as parsed.
    Html,
}

/// One input of a run.
#[derive(Debug, PartialEq, Eq)]
pub enum Input {
    /// The standard input stream.
    Stdin,
    /// The file at this path.
    File(String),
}

/// An [`Input`] as a mathematical value.
pub enum InputView {
    Stdin,
    File(Seq<char>),
}

impl View for Input {
    type V = InputView;

    open spec fn view(&self) -> InputView {
        match self {
            Input::Stdin => InputView::Stdin,
            Input::File(path) => InputView::File(path@),
        }
    }
}

impl Clone for Input {
    fn clone(&self) -> (copy: Input)
        ensures
            copy@ == self@,
    {
        match self {
            Input::Stdin => Input::Stdin,
            Input::File(path) => Input::File(path.clone()),
        }
    }
}

impl InputView {
    /// The path that a rendering of this input is written back to.
    pub open spec fn path(self) -> Option<Seq<char>> {
        match self {
            InputView::Stdin => None,
            InputView::File(path) => Some(path),
        }
    }
}

impl Input {
    /// The path that a rendering of this input is written back to: none for
    /// the standard input stream.
    pub fn path(&self) -> (path: Option<String>)
        ensures
            option_text(path) == self@.path(),
    {
        match self {
            Input::Stdin => None,
            Input::File(path) => Some(path.clone()),
        }
    }
}

/// An optional text as a mathematical value.
pub open spec fn option_text(text: Option<String>) -> Option<Seq<char>> {
    match text {
        Some(text) => Some(text@),
        None => None,
    }
}

/// A copy of an optional text.
pub(crate) fn clone_option_text(text: &Option<String>) -> (copy: Option<String>)
    ensures
        option_text(copy) == option_text(*text),
{
    match text {
        Some(text) => Some(text.clone()),
        None => None,
    }
}

/// Where the renderings go.
#[derive(Debug, PartialEq, Eq)]
pub enum Destination {
    /// All renderings are collected and written once, to the file at the
    /// path, or to standard output where there is none.
    Combined(Option<String>),
    /// Each rendering overwrites the file its input was read from.
    InPlace,
}

/// A [`Destination`] as a mathematical value.
pub enum DestinationView {
    Combined(Option<Seq<char>>),
    InPlace,
}

impl View for Destination {
    type V = DestinationView;

    open spec fn view(&self) -> DestinationView {
        match self {
            Destination::Combined(path) => DestinationView::Combined(option_text(*path)),
            Destination::InPlace => DestinationView::InPlace,
        }
    }
}

/// The configuration of one run. It is built once and never changes.
#[derive(Debug)]
pub struct Config {
    /// The inputs, in the order they are processed.
    pub inputs: Vec<Input>,
    /// The syntax of the inputs.
    pub input_format: InputFormat,
    /// Whether the run only lints, and renders nothing.
    pub check: bool,
    /// The representation to render to, where the run renders.
    pub output_format: OutputFormat,
    /// Whether an HTML rendering is a complete page.
    pub standalone: bool,
    /// Where the renderings go.
    pub destination: Destination,
    /// Whether what is shown to the user is colored.
    pub color: bool,
}

/// A [`Config`] as a mathematical value.
pub struct ConfigView {
    pub inputs: Seq<InputView>,
    pub input_format: InputFormat,
    pub check: bool,
    pub output_format: OutputFormat,
    pub standalone: bool,
    pub destination: DestinationView,
    pub color: bool,
}

impl View for Config {
    type V = ConfigView;

    open spec fn view(&self) -> ConfigView {
        ConfigView {
            inputs: Seq::new(self.inputs@.len(), |i: int| self.inputs@[i]@),
            input_format: self.input_format,
            check: self.check,
            output_format: self.output_format,
            standalone: self.standalone,
            destination: self.destination@,
            color: self.color,
        }
    }
}

impl ConfigView {
    /// Whether every input is a file.
    pub open spec fn all_files(self) -> bool {
        forall|i: int| 0 <= i < self.inputs.len() ==> self.inputs[i] is File
    }

    /// Whether the run rewrites its inputs.
    pub open spec fn in_place(self) -> bool {
        self.destination is InPlace
    }

    /// The first rule that the configuration breaks, if any. Rewriting the
    /// inputs in place is only for a run that renders, that renders Hurl
    /// text, and whose inputs are all files.
    pub open spec fn violation(self) -> Option<ConfigError> {
        if !self.in_place() {
            None
        } else if self.check {
            Some(ConfigError::InPlaceCheck)
        } else if self.output_format != OutputFormat::Hurl {
            Some(ConfigError::InPlaceFormat)
        } else if !self.all_files() {
            Some(ConfigError::InPlaceStdin)
        } else {
            None
        }
    }

    /// Whether the configuration can be run.
    pub open spec fn valid(self) -> bool {
        self.violation() is None
    }
}

/// Why a configuration cannot be run.
#[derive(Clone, Copy, Debug, PartialEq, Eq, Structural)]
pub enum ConfigError {
    /// A check writes nothing, so it cannot rewrite its inputs.
    InPlaceCheck,
    /// Only Hurl text can be written back over a Hurl file.
    InPlaceFormat,
    /// The standard input stream cannot be written back to.
    InPlaceStdin,
}

impl ConfigError {
    /// The outcome of a run that is refused for its configuration: a
    /// generic error, whichever rule is broken.
    pub fn outcome(&self) -> (outcome: Outcome)
        ensures
            outcome == Outcome::GenericError,
    {
        Outcome::GenericError
    }
}

impl Config {
    /// Whether every input is a file.
    pub fn all_files(&self) -> (all: bool)
        ensures
            all == self@.all_files(),
    {
        let mut index: usize = 0;
        while index < self.inputs.len()
            invariant
                index <= self.inputs@.len(),
                forall|i: int| 0 <= i < index ==> self@.inputs[i] is File,
            decreases self.inputs@.len() - index,
        {
            if let Input::Stdin = &self.inputs[index] {
                assert(self@.inputs[index as int] is Stdin);
                return false;
            }
            index += 1;
        }
        true
    }

    /// Checks that the configuration can be run, and reports the first rule
    /// that it breaks.
    pub fn validate(&self) -> (checked: Result<(), ConfigError>)
        ensures
            checked is Ok <==> self@.valid(),
            checked matches Err(error) ==> self@.violation() == Some(error),
    {
        match self.destination {
            Destination::Combined(_) => Ok(()),
            Destination::InPlace => {
                if self.check {
                    Err(ConfigError::InPlaceCheck)
                } else {
                    match self.output_format {
                        OutputFormat::Hurl => {
                            if self.all_files() {
                                Ok(())
                            } else {
                                Err(ConfigError::InPlaceStdin)
                            }
                        },
                        _ => Err(ConfigError::InPlaceFormat),
                    }
                }
            },
        }
    }
}

} // verus!
