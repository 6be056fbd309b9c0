//! The line that the echo tool prints.

use vstd::prelude::*;
use vstd::string::*;

verus! {

/// The first `count` of `words`, with a single space between neighbours.
pub open spec fn joined(words: Seq<Seq<char>>, count: nat) -> Seq<char>
    decreases count,
{
    if count == 0 {
        Seq::empty()
    } else if count == 1 {
        words[0]
    } else {
        joined(words, (count - 1) as nat).push(' ') + words[count - 1]
    }
}

/// What echoing `words` prints: the words with single spaces between them,
/// ended by a newline unless it is left out.
pub open spec fn echoed(words: Seq<Seq<char>>, omit_newline: bool) -> Seq<char> {
    if omit_newline {
        joined(words, words.len())
    } else {
        joined(words, words.len()).push('\n')
    }
}

/// Assembles what echoing `words` prints.
pub fn echo(words: &Vec<String>, omit_newline: bool) -> (output: String)
    ensures
        output@ == echoed(words.deep_view(), omit_newline),
{
    proof {
        reveal_strlit(" ");
        reveal_strlit("\n");
    }
    let ghost source = words.deep_view();
    let mut output = String::new();
    let mut i: usize = 0;
    while i < words.len()
        invariant
            i <= words.len(),
            source == words.deep_view(),
            output@ == joined(source, i as nat),
            " "@ == seq![' '],
        decreases words.len() - i,
    {
        if i > 0 {
            output.append(" ");
        }
        output.append(words[i].as_str());
        i += 1;
    }
    if !omit_newline {
        output.append("\n");
    }
    output
}

} // verus!
