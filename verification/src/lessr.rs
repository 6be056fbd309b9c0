//! Settings of the pager, and the ways in which a run of it can fail.

use vstd::prelude::*;
use vstd::string::*;
use crate::lines::{display_lines, LineBuffer};
use crate::source::{is_stdin_name, Source};

verus! {

/// What the pager was asked to show, and how.
#[derive(Debug)]
pub struct Config {
    file: String,
    line_number: bool,
}

impl Config {
    /// The name of the input, as given.
    pub closed spec fn file_name(&self) -> Seq<char> {
        self.file@
    }

    /// Whether lines are shown with their numbers.
    pub closed spec fn numbered(&self) -> bool {
        self.line_number
    }

    /// Settings for showing the input named `file`, with line numbers if
    /// `line_number` is set.
    pub fn new(file: String, line_number: bool) -> (config: Config)
        ensures
            config.file_name() == file@,
            config.numbered() == line_number,
    {
        Config { file, line_number }
    }

    /// The name of the input, as given.
    pub fn file(&self) -> (file: &str)
        ensures
            file@ == self.file_name(),
    {
        self.file.as_str()
    }

    /// Whether lines are shown with their numbers.
    pub fn line_number(&self) -> (numbered: bool)
        ensures
            numbered == self.numbered(),
    {
        self.line_number
    }

    /// The input to open. An empty name means there is nothing to show, and
    /// the caller prints a hint at the usage instead of starting a session.
    pub fn source(&self) -> (source: Option<Source>)
        ensures
            match source {
                None => self.file_name().len() == 0,
                Some(Source::Stdin) => is_stdin_name(self.file_name()),
                Some(Source::File(path)) => path@ == self.file_name() && self.file_name().len() > 0
                    && !is_stdin_name(self.file_name()),
            },
    {
        if self.file.as_str().is_empty() {
            None
        } else {
            Some(Source::named(self.file.as_str()))
        }
    }

    /// Turns the lines read from the input into the buffer to page through,
    /// numbered from one if the settings ask for it.
    pub fn load(&self, source_lines: Vec<String>) -> (buffer: LineBuffer)
        ensures
            buffer@ == display_lines(source_lines.deep_view(), self.numbered()),
    {
        LineBuffer::new(source_lines, self.line_number)
    }
}

/// Why a run of the pager came to nothing. Each failure carries the cause
/// as the system worded it.
#[derive(Debug, PartialEq, Eq)]
pub enum PagerError {
    /// The input does not exist or cannot be read. The pager does not
    /// start; the failure is reported and the run ends in the ordinary way.
    SourceOpen {
        /// The name of the input, as given.
        name: String,
        /// What went wrong.
        cause: String,
    },
    /// A line of the input could not be read or decoded. No session is
    /// started on part of a source.
    MalformedLine {
        /// What went wrong.
        cause: String,
    },
    /// The terminal could not be queried, switched, cleared or written to.
    /// The session ends, and the terminal is restored all the same.
    Terminal {
        /// What went wrong.
        cause: String,
    },
}

/// What is reported when the input `name` cannot be opened because of
/// `cause`.
pub open spec fn open_failure_message(name: Seq<char>, cause: Seq<char>) -> Seq<char> {
    "Failed to open "@ + name + " : "@ + cause
}

impl PagerError {
    /// Whether the failure ends the run with a failure status: every failure
    /// does, except an input that could not be opened.
    pub fn is_fatal(&self) -> (fatal: bool)
        ensures
            fatal == !(self is SourceOpen),
    {
        match self {
            PagerError::SourceOpen { .. } => false,
            PagerError::MalformedLine { .. } => true,
            PagerError::Terminal { .. } => true,
        }
    }

    /// The report for the user: for an input that could not be opened its
    /// name and the cause, and otherwise the cause alone.
    pub fn message(&self) -> (text: String)
        ensures
            match self {
                PagerError::SourceOpen { name, cause } => text@ == open_failure_message(
                    name@,
                    cause@,
                ),
                PagerError::MalformedLine { cause } => text@ == cause@,
                PagerError::Terminal { cause } => text@ == cause@,
            },
    {
        match self {
            PagerError::SourceOpen { name, cause } => {
                let mut text = String::from_str("Failed to open ");
                text.append(name.as_str());
                text.append(" : ");
                text.append(cause.as_str());
                text
            },
            PagerError::MalformedLine { cause } => cause.clone(),
            PagerError::Terminal { cause } => cause.clone(),
        }
    }
}

} // verus!
