//! How a run ends, and the process exit status that reports it.

use vstd::prelude::*;

verus! {

/// Exit status of a run in which nothing went wrong.
pub const EXIT_OK: i32 = 0;

/// Exit status after an option error or a failed write.
pub const EXIT_ERROR: i32 = 1;

/// Exit status after an input that could not be read, adapted or parsed.
pub const EXIT_INVALID_INPUT: i32 = 2;

/// Exit status of a check that found lint issues.
pub const EXIT_LINT_ISSUE: i32 = 3;

/// The result of a whole run.
#[derive(Clone, Copy, Debug, PartialEq, Eq, Structural)]
pub enum Outcome {
    /// Every input checked clean, or every rendering was written.
    AllOk,
    /// The options were wrong, or a destination could not be written.
    GenericError,
    /// A source was unreadable, or its text was malformed.
    InvalidInput,
    /// The check found at least one lint issue.
    LintIssuesFound,
}

impl Outcome {
    /// The exit status that stands for this outcome.
    pub open spec fn status(self) -> int {
        match self {
            Outcome::AllOk => 0,
            Outcome::GenericError => 1,
            Outcome::InvalidInput => 2,
            Outcome::LintIssuesFound => 3,
        }
    }

    /// The exit status to end the process with.
    pub fn exit_code(self) -> (code: i32)
        ensures
            code == self.status(),
    {
        match self {
            Outcome::AllOk => EXIT_OK,
            Outcome::GenericError => EXIT_ERROR,
            Outcome::InvalidInput => EXIT_INVALID_INPUT,
            Outcome::LintIssuesFound => EXIT_LINT_ISSUE,
        }
    }

    /// Whether the run succeeded.
    pub fn is_success(self) -> (ok: bool)
        ensures
            ok == (self.status() == 0),
            ok == (self == Outcome::AllOk),
    {
        match self {
            Outcome::AllOk => true,
            _ => false,
        }
    }
}

/// Where a message for the user is printed.
#[derive(Clone, Copy, Debug, PartialEq, Eq, Structural)]
pub enum Stream {
    /// Standard output.
    Stdout,
    /// Standard error.
    Stderr,
}

/// Why the command line produced no configuration.
#[derive(Debug)]
pub enum OptionsError {
    /// The user asked for information, such as the help or version text.
    Info(String),
    /// The options could not be understood.
    Error(String),
}

impl OptionsError {
    /// The message carried by either variant.
    pub open spec fn text(self) -> Seq<char> {
        match self {
            OptionsError::Info(message) => message@,
            OptionsError::Error(message) => message@,
        }
    }

    /// The stream the message is printed to: information goes to standard
    /// output, a real error to standard error.
    pub fn stream(&self) -> (stream: Stream)
        ensures
            stream == (if *self is Info { Stream::Stdout } else { Stream::Stderr }),
    {
        match self {
            OptionsError::Info(_) => Stream::Stdout,
            OptionsError::Error(_) => Stream::Stderr,
        }
    }

    /// The outcome of a run that stops here: information is a success, a
    /// real error is a generic error.
    pub fn outcome(&self) -> (outcome: Outcome)
        ensures
            outcome == (if *self is Info { Outcome::AllOk } else { Outcome::GenericError }),
    {
        match self {
            OptionsError::Info(_) => Outcome::AllOk,
            OptionsError::Error(_) => Outcome::GenericError,
        }
    }

    /// Takes the message out.
    pub fn into_message(self) -> (message: String)
        ensures
            message@ == self.text(),
    {
        match self {
            OptionsError::Info(message) => message,
            OptionsError::Error(message) => message,
        }
    }
}

/// Distinct outcomes are reported by distinct exit statuses, and every
/// status lies between 0 and 3.
pub proof fn status_identifies_outcome(a: Outcome, b: Outcome)
    ensures
        0 <= a.status() <= 3,
        a.status() == b.status() <==> a == b,
{
}

} // verus!
