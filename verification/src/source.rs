//! Naming an input: a file by its path, or standard input by a lone dash.

use vstd::prelude::*;
use vstd::string::*;

verus! {

/// Where the text to show comes from.
#[derive(Debug, PartialEq, Eq)]
pub enum Source {
    /// Standard input.
    Stdin,
    /// The file at this path.
    File(String),
}

/// Whether `name` is the name that stands for standard input: a single dash.
pub open spec fn is_stdin_name(name: Seq<char>) -> bool {
    name.len() == 1 && name[0] == '-'
}

impl Source {
    /// Reads an input name: a lone dash names standard input, and anything
    /// else, the empty string included, is taken as the path of a file.
    pub fn named(name: &str) -> (source: Source)
        ensures
            match source {
                Source::Stdin => is_stdin_name(name@),
                Source::File(path) => path@ == name@ && !is_stdin_name(name@),
            },
    {
        if name.unicode_len() == 1 && name.get_char(0) == '-' {
            Source::Stdin
        } else {
            Source::File(name.to_owned())
        }
    }

    /// Whether this is standard input.
    pub fn is_stdin(&self) -> (stdin: bool)
        ensures
            stdin == (self is Stdin),
    {
        match self {
            Source::Stdin => true,
            Source::File(_) => false,
        }
    }
}

} // verus!
