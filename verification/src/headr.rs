//! Settings of the tool that shows the head of each file, and the checks on
//! its counts.

use vstd::prelude::*;
use vstd::string::*;
use crate::decimal::{parse_usize, parsed_usize};

verus! {

/// The positive integer that `text` denotes, if it denotes one: it has to
/// read as a `usize`, and zero does not count.
pub open spec fn positive_int(text: Seq<char>) -> Option<usize> {
    match parsed_usize(text) {
        Some(n) => if n > 0 {
            Some(n)
        } else {
            None
        },
        None => None,
    }
}

/// Reads `val` as a positive integer. Text that denotes no positive integer
/// is handed back as the error.
pub fn parse_positive_int(val: &str) -> (result: Result<usize, String>)
    ensures
        match result {
            Ok(n) => positive_int(val@) == Some(n),
            Err(rejected) => positive_int(val@).is_none() && rejected@ == val@,
        },
{
    match parse_usize(val) {
        Some(n) => {
            if n > 0 {
                Ok(n)
            } else {
                Err(val.to_owned())
            }
        },
        None => Err(val.to_owned()),
    }
}

/// A count on the command line that is no positive integer, with the text
/// that was given for it.
#[derive(Debug, PartialEq, Eq)]
pub enum ArgError {
    /// The number of lines.
    IllegalLineCount(String),
    /// The number of bytes.
    IllegalByteCount(String),
}

impl ArgError {
    /// The complaint to show to the user.
    pub fn message(&self) -> (text: String)
        ensures
            match self {
                ArgError::IllegalLineCount(given) => text@ == "illegal line count -- "@ + given@,
                ArgError::IllegalByteCount(given) => text@ == "illegal bytes -- "@ + given@,
            },
    {
        match self {
            ArgError::IllegalLineCount(given) => {
                let mut text = String::from_str("illegal line count -- ");
                text.append(given.as_str());
                text
            },
            ArgError::IllegalByteCount(given) => {
                let mut text = String::from_str("illegal bytes -- ");
                text.append(given.as_str());
                text
            },
        }
    }
}

/// Which files to show the head of, and how much of each.
#[derive(Debug)]
pub struct Config {
    files: Vec<String>,
    lines: usize,
    bytes: Option<usize>,
}

impl Config {
    /// The files, in the order given.
    pub closed spec fn file_names(&self) -> Seq<Seq<char>> {
        self.files.deep_view()
    }

    /// How many lines of each file to show.
    pub closed spec fn line_count(&self) -> usize {
        self.lines
    }

    /// How many bytes of each file to show, if bytes were asked for.
    pub closed spec fn byte_count(&self) -> Option<usize> {
        self.bytes
    }

    /// Checks the counts as they stand on the command line and builds the
    /// settings. The line count is looked at first, so when both counts are
    /// wrong the complaint is about the lines.
    pub fn new(files: Vec<String>, count: &str, bytes: Option<&str>) -> (result: Result<
        Config,
        ArgError,
    >)
        ensures
            match result {
                Ok(config) => {
                    &&& config.file_names() == files.deep_view()
                    &&& positive_int(count@) == Some(config.line_count())
                    &&& match bytes {
                        Some(given) => config.byte_count().is_some() && positive_int(given@)
                            == config.byte_count(),
                        None => config.byte_count().is_none(),
                    }
                },
                Err(ArgError::IllegalLineCount(given)) => {
                    &&& positive_int(count@).is_none()
                    &&& given@ == count@
                },
                Err(ArgError::IllegalByteCount(given)) => {
                    &&& positive_int(count@).is_some()
                    &&& bytes.is_some()
                    &&& positive_int(bytes.unwrap()@).is_none()
                    &&& given@ == bytes.unwrap()@
                },
            },
    {
        let lines: usize = match parse_positive_int(count) {
            Ok(n) => n,
            Err(given) => {
                return Err(ArgError::IllegalLineCount(given));
            },
        };
        let bytes: Option<usize> = match bytes {
            Some(text) => match parse_positive_int(text) {
                Ok(n) => Some(n),
                Err(given) => {
                    return Err(ArgError::IllegalByteCount(given));
                },
            },
            None => None,
        };
        Ok(Config { files, lines, bytes })
    }

    /// The files, in the order given.
    pub fn files(&self) -> (files: &[String])
        ensures
            files.deep_view() == self.file_names(),
    {
        self.files.as_slice()
    }

    /// How many lines of each file to show.
    pub fn lines(&self) -> (lines: usize)
        ensures
            lines == self.line_count(),
    {
        self.lines
    }

    /// How many bytes of each file to show, if bytes were asked for.
    pub fn bytes(&self) -> (bytes: Option<usize>)
        ensures
            bytes == self.byte_count(),
    {
        self.bytes
    }
}

} // verus!
