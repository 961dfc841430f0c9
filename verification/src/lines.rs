//! The lines of a text.

use vstd::prelude::*;
use crate::chars::{lemma_occurrences_step, occurrences};
use crate::text::utf8_len;

verus! {

/// The number of lines of `text`: one for each line feed, and one more for
/// what follows the last line feed, if anything does. The empty text has no
/// line.
pub open spec fn line_count(text: Seq<char>) -> nat {
    occurrences(text, '\n') + if text.len() > 0 && text.last() != '\n' {
        1nat
    } else {
        0nat
    }
}

/// Counts the lines of `text`.
pub fn count_lines(text: &str) -> (count: usize)
    ensures
        count == line_count(text@),
{
    let size = utf8_len(text);
    let mut feeds: usize = 0;
    let mut open = false;
    for c in it: text.chars()
        invariant
            it.seq() == text@,
            text@.len() <= size,
            feeds == occurrences(text@.take(it.index() as int), '\n'),
            open <==> it.index() > 0 && text@[it.index() - 1] != '\n',
            feeds + if open { 1nat } else { 0nat } <= it.index(),
    {
        proof {
            lemma_occurrences_step(text@, it.index() as int, '\n');
        }
        if c == '\n' {
            feeds = feeds + 1;
            open = false;
        } else {
            open = true;
        }
    }
    assert(text@.take(text@.len() as int) =~= text@);
    if open {
        feeds + 1
    } else {
        feeds
    }
}

} // verus!
