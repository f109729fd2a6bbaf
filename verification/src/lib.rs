//! The orchestration core of a formatter and linter for Hurl files.
//!
//! A run takes a list of inputs. Each one is read, adapted from curl command
//! lines where asked, parsed, and then either linted or rendered, and what was
//! rendered is written back in place or collected into one output. The first
//! failure ends the run. This crate holds the decisions of such a run as a
//! state machine: a driver performs the reading, linting, rendering and
//! writing that the machine asks for and hands the results back.
//!
//! - [`config`]: what a run is asked to do, and which configurations can run.
//! - [`protocol`]: the requests of the pipeline, the replies of its driver,
//!   and the report a run ends with.
//! - [`model`]: the state machine as mathematics.
//! - [`pipeline`]: the state machine as code, proved to follow the model.
//! - [`run`] and [`laws`]: whole runs, and what holds of every one of them.
//! - [`text`]: the line terminator that written text ends with.
//! - [`outcome`]: how a run ends, and its exit status.
//! - [`document`] and [`terminal`]: what is taken for granted of `hurl_core`
//!   and of `colored`.

pub mod config;
pub mod document;
pub mod laws;
pub mod model;
pub mod outcome;
pub mod pipeline;
pub mod protocol;
pub mod run;
pub mod terminal;
pub mod text;
