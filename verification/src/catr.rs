//! Settings of the tool that copies files to the output, and the numbering
//! of the lines it copies.

use vstd::prelude::*;
use vstd::string::*;
use crate::lines::{number_line, numbered_line};

verus! {

/// How many of the first `count` lines are not empty.
pub open spec fn nonblank_count(lines: Seq<Seq<char>>, count: nat) -> nat
    decreases count,
{
    if count == 0 {
        0
    } else if lines[count - 1].len() > 0 {
        nonblank_count(lines, (count - 1) as nat) + 1
    } else {
        nonblank_count(lines, (count - 1) as nat)
    }
}

/// A line as it is written out, when it is line `position` of its file and
/// the `nonblank`-th of the lines that are not empty. With `number_lines`
/// every line carries its position. Otherwise, with `number_nonblank_lines`,
/// a line that is not empty carries its count among such lines, and an empty
/// line stays empty. With neither the line is copied as it is.
pub open spec fn written_line(
    line: Seq<char>,
    position: nat,
    nonblank: nat,
    number_lines: bool,
    number_nonblank_lines: bool,
) -> Seq<char> {
    if number_lines {
        numbered_line(position, line)
    } else if number_nonblank_lines && line.len() > 0 {
        numbered_line(nonblank, line)
    } else {
        line
    }
}

/// Line `i` of a file as it is written out: positions and counts start at
/// one, at the top of the file.
pub open spec fn output_line(
    lines: Seq<Seq<char>>,
    i: int,
    number_lines: bool,
    number_nonblank_lines: bool,
) -> Seq<char> {
    written_line(
        lines[i],
        (i + 1) as nat,
        nonblank_count(lines, (i + 1) as nat),
        number_lines,
        number_nonblank_lines,
    )
}

/// All lines of a file as they are written out.
pub open spec fn output_lines(
    lines: Seq<Seq<char>>,
    number_lines: bool,
    number_nonblank_lines: bool,
) -> Seq<Seq<char>> {
    Seq::new(lines.len(), |i: int| output_line(lines, i, number_lines, number_nonblank_lines))
}

/// How far the numbering of one file has come: how many of its lines have
/// been written out, and how many of those were not empty.
#[derive(Clone, Copy, Debug)]
pub struct Numbering {
    lines: usize,
    nonblank: usize,
}

impl Numbering {
    #[verifier::type_invariant]
    spec fn valid(&self) -> bool {
        self.nonblank <= self.lines
    }

    /// Lines written out so far.
    pub closed spec fn lines_seen(&self) -> nat {
        self.lines as nat
    }

    /// Lines written out so far that were not empty.
    pub closed spec fn nonblank_seen(&self) -> nat {
        self.nonblank as nat
    }

    /// The numbering at the top of a file.
    pub fn new() -> (numbering: Numbering)
        ensures
            numbering.lines_seen() == 0,
            numbering.nonblank_seen() == 0,
    {
        Numbering { lines: 0, nonblank: 0 }
    }

    /// Whether the count of lines has reached the largest number that it can
    /// hold, so that no further line can be numbered.
    pub fn is_full(&self) -> (full: bool)
        ensures
            full == (self.lines_seen() == usize::MAX),
    {
        self.lines == usize::MAX
    }
}

/// Which files to copy, and whether to number their lines.
#[derive(Debug)]
pub struct Config {
    files: Vec<String>,
    number_lines: bool,
    number_nonblank_lines: bool,
}

impl Config {
    /// The files, in the order given.
    pub closed spec fn file_names(&self) -> Seq<Seq<char>> {
        self.files.deep_view()
    }

    /// Whether every line is numbered.
    pub closed spec fn numbers_lines(&self) -> bool {
        self.number_lines
    }

    /// Whether the lines that are not empty are numbered.
    pub closed spec fn numbers_nonblank_lines(&self) -> bool {
        self.number_nonblank_lines
    }

    /// Settings for copying `files`.
    pub fn new(files: Vec<String>, number_lines: bool, number_nonblank_lines: bool) -> (config:
        Config)
        ensures
            config.file_names() == files.deep_view(),
            config.numbers_lines() == number_lines,
            config.numbers_nonblank_lines() == number_nonblank_lines,
    {
        Config { files, number_lines, number_nonblank_lines }
    }

    /// The files, in the order given.
    pub fn files(&self) -> (files: &[String])
        ensures
            files.deep_view() == self.file_names(),
    {
        self.files.as_slice()
    }

    /// Whether every line is numbered.
    pub fn number_lines(&self) -> (set: bool)
        ensures
            set == self.numbers_lines(),
    {
        self.number_lines
    }

    /// Whether the lines that are not empty are numbered.
    pub fn number_nonblank_lines(&self) -> (set: bool)
        ensures
            set == self.numbers_nonblank_lines(),
    {
        self.number_nonblank_lines
    }

    /// The next line of a file as it is written out, given how far the
    /// numbering of the file has come. The line is counted, and counted
    /// among the lines that are not empty if it is not. It then carries its
    /// position in the file if every line is numbered; else its count among
    /// the lines that are not empty, if those are numbered and it is one; and
    /// else it is copied as it is.
    pub fn write_line(&self, numbering: &mut Numbering, line: &str) -> (output: String)
        requires
            old(numbering).lines_seen() < usize::MAX,
        ensures
            final(numbering).lines_seen() == old(numbering).lines_seen() + 1,
            line@.len() > 0 ==> final(numbering).nonblank_seen() == old(numbering).nonblank_seen()
                + 1,
            line@.len() == 0 ==> final(numbering).nonblank_seen() == old(
                numbering,
            ).nonblank_seen(),
            output@ == written_line(
                line@,
                final(numbering).lines_seen(),
                final(numbering).nonblank_seen(),
                self.numbers_lines(),
                self.numbers_nonblank_lines(),
            ),
    {
        proof {
            use_type_invariant(&*numbering);
        }
        let blank: bool = line.is_empty();
        let lines: usize = numbering.lines + 1;
        let nonblank: usize = if blank {
            numbering.nonblank
        } else {
            numbering.nonblank + 1
        };
        *numbering = Numbering { lines, nonblank };
        if self.number_lines {
            number_line(lines, line)
        } else if self.number_nonblank_lines && !blank {
            number_line(nonblank, line)
        } else {
            line.to_owned()
        }
    }

    /// The lines of one file as they are written out, in order: what writing
    /// them one after the other from the top of the file gives.
    pub fn render(&self, lines: &Vec<String>) -> (output: Vec<String>)
        ensures
            output.deep_view() == output_lines(
                lines.deep_view(),
                self.numbers_lines(),
                self.numbers_nonblank_lines(),
            ),
    {
        let ghost source = lines.deep_view();
        let mut output: Vec<String> = Vec::new();
        let mut numbering = Numbering::new();
        let mut i: usize = 0;
        while i < lines.len()
            invariant
                i <= lines.len(),
                source == lines.deep_view(),
                output.len() == i,
                numbering.lines_seen() == i,
                numbering.nonblank_seen() == nonblank_count(source, i as nat),
                forall|j: int|
                    0 <= j < i ==> (#[trigger] output[j])@ == output_line(
                        source,
                        j,
                        self.number_lines,
                        self.number_nonblank_lines,
                    ),
            decreases lines.len() - i,
        {
            output.push(self.write_line(&mut numbering, lines[i].as_str()));
            i += 1;
        }
        assert(output.deep_view() =~= output_lines(
            source,
            self.number_lines,
            self.number_nonblank_lines,
        ));
        output
    }
}

} // verus!
