//! Display lines: the optional line-number prefix and the buffer of lines
//! that a pager session shows.

use vstd::prelude::*;
use vstd::slice::*;
use vstd::string::*;
use crate::decimal::{
    append_decimal, decimal_digits, decimal_width, is_digit, lemma_digits_are_digits,
    lemma_parse_of_digits, parsed_usize,
};
use crate::paging::{page_bounds, page_len, page_of};

verus! {

/// Width of the field that holds a line number.
pub const NUMBER_WIDTH: usize = 6;

/// `s` pushed to the right edge of a field of `width` characters by leading
/// spaces. A string that is already as wide as the field is left as it is.
pub open spec fn right_aligned(s: Seq<char>, width: nat) -> Seq<char> {
    if s.len() >= width {
        s
    } else {
        Seq::new((width - s.len()) as nat, |i: int| ' ') + s
    }
}

/// The prefix that numbers a line: the number in decimal, right-aligned in a
/// field of six characters, then a tab.
pub open spec fn number_prefix(number: nat) -> Seq<char> {
    right_aligned(decimal_digits(number), NUMBER_WIDTH as nat).push('\t')
}

/// A line of text behind its number prefix.
pub open spec fn numbered_line(number: nat, text: Seq<char>) -> Seq<char> {
    number_prefix(number) + text
}

/// Formats `text` as line `number`: the number right-aligned in six
/// columns, a tab, then the text itself.
pub fn number_line(number: usize, text: &str) -> (line: String)
    ensures
        line@ == numbered_line(number as nat, text@),
{
    proof {
        reveal_strlit(" ");
        reveal_strlit("\t");
    }
    let width: usize = decimal_width(number);
    let mut line = String::new();
    let mut padded: usize = width;
    while padded < NUMBER_WIDTH
        invariant
            width <= padded,
            width >= NUMBER_WIDTH ==> padded == width,
            width < NUMBER_WIDTH ==> padded <= NUMBER_WIDTH,
            line@ == Seq::new((padded - width) as nat, |i: int| ' '),
            " "@ == seq![' '],
        decreases NUMBER_WIDTH - padded,
    {
        line.append(" ");
        padded += 1;
    }
    append_decimal(&mut line, number);
    line.append("\t");
    line.append(text);
    line
}

/// The part of `line` in front of its first tab: all of it if it holds none.
pub open spec fn field_before_tab(line: Seq<char>) -> Seq<char>
    decreases line.len(),
{
    if line.len() == 0 || line[0] == '\t' {
        Seq::empty()
    } else {
        seq![line[0]] + field_before_tab(line.drop_first())
    }
}

/// `s` from its first character that is not a space.
pub open spec fn without_leading_spaces(s: Seq<char>) -> Seq<char>
    decreases s.len(),
{
    if s.len() > 0 && s[0] == ' ' {
        without_leading_spaces(s.drop_first())
    } else {
        s
    }
}

/// The number that stands in front of a line: what the field before the
/// first tab, less its leading spaces, reads as.
pub open spec fn line_number_of(line: Seq<char>) -> Option<usize> {
    parsed_usize(without_leading_spaces(field_before_tab(line)))
}

proof fn lemma_field_ends_at_tab(field: Seq<char>, rest: Seq<char>)
    requires
        forall|i: int| 0 <= i < field.len() ==> field[i] != '\t',
    ensures
        field_before_tab(field.push('\t') + rest) == field,
    decreases field.len(),
{
    let line = field.push('\t') + rest;
    if field.len() > 0 {
        assert(line.drop_first() =~= field.drop_first().push('\t') + rest);
        lemma_field_ends_at_tab(field.drop_first(), rest);
    }
}

proof fn lemma_padding_is_skipped(pad: nat, s: Seq<char>)
    requires
        s.len() > 0,
        s[0] != ' ',
    ensures
        without_leading_spaces(Seq::new(pad, |i: int| ' ') + s) == s,
    decreases pad,
{
    let padded = Seq::new(pad, |i: int| ' ') + s;
    if pad > 0 {
        assert(padded.drop_first() =~= Seq::new((pad - 1) as nat, |i: int| ' ') + s);
        lemma_padding_is_skipped((pad - 1) as nat, s);
    }
}

/// The number in front of a numbered line reads back as the number that the
/// line was given, whatever the text of the line is.
pub proof fn lemma_line_number_reads_back(number: usize, text: Seq<char>)
    ensures
        line_number_of(numbered_line(number as nat, text)) == Some(number),
{
    let digits = decimal_digits(number as nat);
    let field = right_aligned(digits, NUMBER_WIDTH as nat);
    lemma_digits_are_digits(number as nat);
    lemma_parse_of_digits(number);
    // The field holds spaces and digits only, so the tab behind it is the
    // first tab of the line.
    assert forall|i: int| 0 <= i < field.len() implies field[i] != '\t' by {
        let pad = field.len() - digits.len();
        if i >= pad {
            assert(is_digit(digits[i - pad]));
        }
    }
    lemma_field_ends_at_tab(field, text);
    if digits.len() < NUMBER_WIDTH {
        lemma_padding_is_skipped((NUMBER_WIDTH - digits.len()) as nat, digits);
    }
}

/// The lines as they are displayed: each behind the number of its position,
/// counted from one, when `numbered` is set, and unchanged otherwise.
pub open spec fn display_lines(source: Seq<Seq<char>>, numbered: bool) -> Seq<Seq<char>> {
    Seq::new(
        source.len(),
        |i: int|
            if numbered {
                numbered_line((i + 1) as nat, source[i])
            } else {
                source[i]
            },
    )
}

/// In a numbered display every line carries its own position in the source,
/// counted from one, whether the line is blank or not.
pub proof fn lemma_display_numbers_are_positions(source: Seq<Seq<char>>, i: int)
    requires
        0 <= i < source.len(),
        source.len() <= usize::MAX,
    ensures
        line_number_of(display_lines(source, true)[i]) == Some((i + 1) as usize),
{
    lemma_line_number_reads_back((i + 1) as usize, source[i]);
}

/// Every line of one source in display form, in source order.
#[derive(Debug)]
pub struct LineBuffer {
    lines: Vec<String>,
}

impl View for LineBuffer {
    type V = Seq<Seq<char>>;

    closed spec fn view(&self) -> Seq<Seq<char>> {
        self.lines.deep_view()
    }
}

impl LineBuffer {
    /// Builds the buffer for the lines of a source, numbering them when
    /// `numbered` is set.
    pub fn new(source: Vec<String>, numbered: bool) -> (buffer: LineBuffer)
        ensures
            buffer@ == display_lines(source.deep_view(), numbered),
    {
        if !numbered {
            return LineBuffer { lines: source };
        }
        let mut lines: Vec<String> = Vec::new();
        let mut i: usize = 0;
        while i < source.len()
            invariant
                i <= source.len(),
                lines.len() == i,
                forall|j: int|
                    0 <= j < i ==> (#[trigger] lines[j])@ == numbered_line(
                        (j + 1) as nat,
                        source[j]@,
                    ),
            decreases source.len() - i,
        {
            lines.push(number_line(i + 1, source[i].as_str()));
            i += 1;
        }
        LineBuffer { lines }
    }

    /// Number of lines in the buffer.
    pub fn len(&self) -> (n: usize)
        ensures
            n == self@.len(),
    {
        self.lines.len()
    }

    /// Whether the buffer holds no line at all.
    pub fn is_empty(&self) -> (empty: bool)
        ensures
            empty == (self@.len() == 0),
    {
        self.lines.len() == 0
    }

    /// The line at `index`, if there is one.
    pub fn line(&self, index: usize) -> (line: Option<&String>)
        ensures
            index < self@.len() ==> line.is_some() && line.unwrap()@ == self@[index as int],
            index >= self@.len() ==> line.is_none(),
    {
        if index < self.lines.len() {
            Some(&self.lines[index])
        } else {
            None
        }
    }

    /// All lines of the buffer, in order.
    pub fn lines(&self) -> (lines: &[String])
        ensures
            lines.deep_view() == self@,
    {
        self.lines.as_slice()
    }

    /// The lines that page `page` shows when every page holds `page_size`
    /// lines: up to `page_size` consecutive lines that start at line
    /// `page * page_size`. The final page holds what is left, and a page past
    /// the end holds nothing.
    pub fn render_page(&self, page: usize, page_size: usize) -> (shown: &[String])
        ensures
            shown.deep_view() == page_of(self@, page_size as nat, page as nat),
            shown@.len() == page_len(self@.len(), page_size as nat, page as nat),
            shown@.len() <= page_size,
    {
        let (start, count) = page_bounds(self.lines.len(), page_size, page);
        slice_subrange(self.lines.as_slice(), start, start + count)
    }
}

} // verus!
