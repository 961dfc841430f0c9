//! The words of a text: maximal runs of characters that are not white space.

use vstd::prelude::*;
use std::collections::HashMap;
use crate::text::{is_white_space, utf8_len};

verus! {

/// Whether the `len` characters of `text` from position `start` on form a
/// word: a run of characters that are not white space, which neither side
/// could extend.
pub open spec fn is_word(text: Seq<char>, start: int, len: int) -> bool {
    &&& 0 <= start
    &&& 1 <= len
    &&& start + len <= text.len()
    &&& forall|k: int| start <= k < start + len ==> !is_white_space(#[trigger] text[k])
    &&& (start == 0 || is_white_space(text[start - 1]))
    &&& (start + len == text.len() || is_white_space(text[start + len]))
}

/// Whether a word of `text` ends just before position `end`.
pub open spec fn is_word_end(text: Seq<char>, end: int) -> bool {
    &&& 1 <= end <= text.len()
    &&& !is_white_space(text[end - 1])
    &&& (end == text.len() || is_white_space(text[end]))
}

/// The number of words of `text` that end at or before position `limit`.
pub open spec fn words_within(text: Seq<char>, limit: int) -> nat
    decreases limit,
{
    if limit <= 0 {
        0
    } else {
        words_within(text, limit - 1) + if is_word_end(text, limit) {
            1nat
        } else {
            0nat
        }
    }
}

/// The number of words of `text`.
pub open spec fn word_count(text: Seq<char>) -> nat {
    words_within(text, text.len() as int)
}

/// The number of words of exactly `len` characters of `text` that end at or
/// before position `limit`.
pub open spec fn words_of_length_within(text: Seq<char>, len: int, limit: int) -> nat
    decreases limit,
{
    if limit <= 0 {
        0
    } else {
        words_of_length_within(text, len, limit - 1) + if is_word(text, limit - len, len) {
            1nat
        } else {
            0nat
        }
    }
}

/// The number of words of `text` that have exactly `len` characters.
pub open spec fn words_of_length(text: Seq<char>, len: int) -> nat {
    words_of_length_within(text, len, text.len() as int)
}

/// The word-length histogram of `text`: each length that some word has, with
/// the number of words of that length.
pub open spec fn word_length_histogram(text: Seq<char>) -> Map<nat, nat> {
    Map::new(
        |len: nat| words_of_length(text, len as int) > 0,
        |len: nat| words_of_length(text, len as int),
    )
}

/// No more words end within a stretch of text than it has positions.
proof fn lemma_words_within_bound(text: Seq<char>, limit: int)
    ensures
        words_within(text, limit) <= if limit <= 0 { 0 } else { limit },
    decreases limit,
{
    if limit > 0 {
        lemma_words_within_bound(text, limit - 1);
    }
}

/// No more words of one length end within a stretch of text than it has
/// positions.
proof fn lemma_words_of_length_within_bound(text: Seq<char>, len: int, limit: int)
    ensures
        words_of_length_within(text, len, limit) <= if limit <= 0 { 0 } else { limit },
    decreases limit,
{
    if limit > 0 {
        lemma_words_of_length_within_bound(text, len, limit - 1);
    }
}

/// Where a run of `run` characters that are not white space ends just before
/// position `end`, and cannot be extended to the left, the only word that can
/// end there is that run, and it does so exactly if it cannot be extended to
/// the right either.
proof fn lemma_word_ends_with_run(text: Seq<char>, end: int, run: int)
    requires
        0 <= run <= end <= text.len(),
        forall|k: int| end - run <= k < end ==> !is_white_space(#[trigger] text[k]),
        run == end || is_white_space(text[end - run - 1]),
    ensures
        forall|len: int| #[trigger]
            is_word(text, end - len, len) <==> (run > 0 && len == run && (end == text.len()
                || is_white_space(text[end]))),
{
}

/// Counts the words of `text`.
pub fn count_words(text: &str) -> (count: usize)
    ensures
        count == word_count(text@),
{
    let size = utf8_len(text);
    let mut count: usize = 0;
    let mut in_word = false;
    for c in it: text.chars()
        invariant
            it.seq() == text@,
            text@.len() <= size,
            count == words_within(text@, it.index() - 1),
            in_word <==> it.index() > 0 && !is_white_space(text@[it.index() - 1]),
    {
        let white = c.is_whitespace();
        if white && in_word {
            proof {
                lemma_words_within_bound(text@, it.index() - 1);
            }
            count = count + 1;
        }
        in_word = !white;
    }
    if in_word {
        proof {
            lemma_words_within_bound(text@, text@.len() - 1);
        }
        count = count + 1;
    }
    count
}

/// The count that a histogram records for words of `len` characters: zero
/// where it has no entry.
spec fn recorded(histogram: Map<usize, usize>, len: int) -> nat {
    if 0 <= len <= usize::MAX && histogram.contains_key(len as usize) {
        histogram[len as usize] as nat
    } else {
        0
    }
}

/// The mathematical value of a histogram held in machine integers.
pub open spec fn histogram_view(histogram: Map<usize, usize>) -> Map<nat, nat> {
    Map::new(
        |len: nat| len <= usize::MAX && histogram.contains_key(len as usize),
        |len: nat| histogram[len as usize] as nat,
    )
}

/// Whether `histogram` records exactly the words of `text` that end at or
/// before position `limit`, with no entry for a length that no such word has.
spec fn records_words_within(
    histogram: Map<usize, usize>,
    text: Seq<char>,
    limit: int,
) -> bool {
    &&& forall|len: int| #[trigger]
        recorded(histogram, len) == words_of_length_within(text, len, limit)
    &&& forall|key: usize| #[trigger] histogram.contains_key(key) ==> histogram[key] > 0
}

/// One step of recording: a histogram that records the words ending before
/// position `end` records those ending at or before it once the run that
/// ends there, if it is a word, has been counted.
proof fn lemma_record_step(
    before: Map<usize, usize>,
    after: Map<usize, usize>,
    text: Seq<char>,
    end: int,
    run: usize,
)
    requires
        0 <= run <= end <= text.len(),
        forall|k: int| end - run <= k < end ==> !is_white_space(#[trigger] text[k]),
        run == end || is_white_space(text[end - run - 1]),
        records_words_within(before, text, end - 1),
        recorded(before, run as int) < usize::MAX,
        after == if run > 0 && (end == text.len() || is_white_space(text[end])) {
            before.insert(run, (recorded(before, run as int) + 1) as usize)
        } else {
            before
        },
    ensures
        records_words_within(after, text, end),
{
    lemma_word_ends_with_run(text, end, run as int);
    assert forall|len: int| #[trigger]
        recorded(after, len) == words_of_length_within(text, len, end) by {
        assert(recorded(before, len) == words_of_length_within(text, len, end - 1));
        assert(is_word(text, end - len, len) <==> (run > 0 && len == run && (end == text.len()
            || is_white_space(text[end]))));
    }
}

/// Counts one more word of `len` characters.
fn count_word(histogram: &mut HashMap<usize, usize>, len: usize)
    requires
        recorded(old(histogram)@, len as int) < usize::MAX,
    ensures
        final(histogram)@ == old(histogram)@.insert(
            len,
            (recorded(old(histogram)@, len as int) + 1) as usize,
        ),
{
    let count = match histogram.get(&len) {
        Some(count) => *count,
        None => 0,
    };
    histogram.insert(len, count + 1);
}

/// Computes the word-length histogram of `text`: for each length in
/// characters that some word has, the number of words of that length.
pub fn word_lengths(text: &str) -> (histogram: HashMap<usize, usize>)
    ensures
        histogram_view(histogram@) == word_length_histogram(text@),
{
    let size = utf8_len(text);
    let mut histogram: HashMap<usize, usize> = HashMap::new();
    let mut run: usize = 0;
    for c in it: text.chars()
        invariant
            it.seq() == text@,
            text@.len() <= size,
            run <= it.index(),
            forall|k: int|
                it.index() - run <= k < it.index() ==> !is_white_space(#[trigger] text@[k]),
            run == it.index() || is_white_space(text@[it.index() - run - 1]),
            records_words_within(histogram@, text@, it.index() - 1),
    {
        let ghost end = it.index() as int;
        let ghost before = histogram@;
        proof {
            lemma_words_of_length_within_bound(text@, run as int, end - 1);
        }
        if c.is_whitespace() {
            if run > 0 {
                count_word(&mut histogram, run);
            }
            proof {
                lemma_record_step(before, histogram@, text@, end, run);
            }
            run = 0;
        } else {
            proof {
                lemma_record_step(before, histogram@, text@, end, run);
            }
            run = run + 1;
        }
    }
    let ghost before = histogram@;
    proof {
        lemma_words_of_length_within_bound(text@, run as int, text@.len() - 1);
    }
    if run > 0 {
        count_word(&mut histogram, run);
    }
    proof {
        lemma_record_step(before, histogram@, text@, text@.len() as int, run);
        assert forall|len: nat|
            histogram_view(histogram@).contains_key(len) == word_length_histogram(
                text@,
            ).contains_key(len) by {
            assert(recorded(histogram@, len as int) == words_of_length(text@, len as int));
        }
        assert forall|len: nat| #[trigger]
            histogram_view(histogram@).contains_key(len) implies histogram_view(histogram@)[len]
            == word_length_histogram(text@)[len] by {
            assert(recorded(histogram@, len as int) == words_of_length(text@, len as int));
        }
    }
    histogram
}

/// The counts that `histogram` holds for the lengths up to `longest`, added
/// up.
pub open spec fn total_up_to(histogram: Map<nat, nat>, longest: int) -> nat
    decreases longest + 1,
{
    if longest < 0 {
        0
    } else {
        total_up_to(histogram, longest - 1) + if histogram.contains_key(longest as nat) {
            histogram[longest as nat]
        } else {
            0nat
        }
    }
}

/// The number of characters that are not white space and stand in one run
/// just before position `end`.
spec fn run_before(text: Seq<char>, end: int) -> int
    decreases end,
{
    if end <= 0 || end > text.len() || is_white_space(text[end - 1]) {
        0
    } else {
        1 + run_before(text, end - 1)
    }
}

/// The run before a position is a run, and cannot be extended to the left.
proof fn lemma_run_before(text: Seq<char>, end: int)
    requires
        0 <= end <= text.len(),
    ensures
        0 <= run_before(text, end) <= end,
        forall|k: int|
            end - run_before(text, end) <= k < end ==> !is_white_space(#[trigger] text[k]),
        run_before(text, end) == end || is_white_space(text[end - run_before(text, end) - 1]),
    decreases end,
{
    if end > 0 && !is_white_space(text[end - 1]) {
        lemma_run_before(text, end - 1);
    }
}

/// The number of words of fewer than `bound` characters that end at or
/// before position `limit`, counted length by length.
spec fn shorter_words_within(text: Seq<char>, bound: int, limit: int) -> nat
    decreases bound,
{
    if bound <= 0 {
        0
    } else {
        shorter_words_within(text, bound - 1, limit) + words_of_length_within(
            text,
            bound - 1,
            limit,
        )
    }
}

/// The number of lengths below `bound` of which a word ends just before
/// position `end`.
spec fn shorter_words_at(text: Seq<char>, bound: int, end: int) -> nat
    decreases bound,
{
    if bound <= 0 {
        0
    } else {
        shorter_words_at(text, bound - 1, end) + if is_word(text, end - (bound - 1), bound - 1) {
            1nat
        } else {
            0nat
        }
    }
}

/// Moving the limit one position on adds the words that end there.
proof fn lemma_shorter_words_step(text: Seq<char>, bound: int, limit: int)
    requires
        limit >= 1,
    ensures
        shorter_words_within(text, bound, limit) == shorter_words_within(text, bound, limit - 1)
            + shorter_words_at(text, bound, limit),
    decreases bound,
{
    if bound > 0 {
        lemma_shorter_words_step(text, bound - 1, limit);
    }
}

/// At most one word ends at a position: the run before it, if nothing
/// extends it to the right.
proof fn lemma_shorter_words_at(text: Seq<char>, bound: int, end: int)
    requires
        1 <= end <= text.len(),
    ensures
        shorter_words_at(text, bound, end) == if is_word_end(text, end) && run_before(text, end)
            < bound {
            1nat
        } else {
            0nat
        },
    decreases bound,
{
    lemma_run_before(text, end);
    lemma_word_ends_with_run(text, end, run_before(text, end));
    if bound > 0 {
        lemma_shorter_words_at(text, bound - 1, end);
        let len = bound - 1;
        assert(is_word(text, end - len, len) <==> (run_before(text, end) > 0 && len == run_before(
            text,
            end,
        ) && (end == text.len() || is_white_space(text[end]))));
    }
}

/// Counted length by length, with every length that fits the text, the words
/// that end within a stretch of the text are all its words.
proof fn lemma_shorter_words_are_all(text: Seq<char>, bound: int, limit: int)
    requires
        limit <= text.len() < bound,
    ensures
        shorter_words_within(text, bound, limit) == words_within(text, limit),
    decreases limit,
{
    if limit <= 0 {
        lemma_shorter_words_none(text, bound, limit);
    } else {
        lemma_shorter_words_are_all(text, bound, limit - 1);
        lemma_shorter_words_step(text, bound, limit);
        lemma_shorter_words_at(text, bound, limit);
        lemma_run_before(text, limit);
    }
}

/// No word ends before the text begins.
proof fn lemma_shorter_words_none(text: Seq<char>, bound: int, limit: int)
    requires
        limit <= 0,
    ensures
        shorter_words_within(text, bound, limit) == 0,
    decreases bound,
{
    if bound > 0 {
        lemma_shorter_words_none(text, bound - 1, limit);
    }
}

/// The histogram holds, for each length, the number of words of that length.
proof fn lemma_total_is_shorter_words(text: Seq<char>, longest: int)
    ensures
        total_up_to(word_length_histogram(text), longest) == shorter_words_within(
            text,
            longest + 1,
            text.len() as int,
        ),
    decreases longest + 1,
{
    if longest >= 0 {
        lemma_total_is_shorter_words(text, longest - 1);
    }
}

/// A word is no longer than the text, and has a character.
proof fn lemma_word_length_range(text: Seq<char>, len: int, limit: int)
    requires
        words_of_length_within(text, len, limit) > 0,
    ensures
        1 <= len <= text.len(),
    decreases limit,
{
    if limit > 0 && !is_word(text, limit - len, len) {
        lemma_word_length_range(text, len, limit - 1);
    }
}

/// The counts of the word-length histogram of a text add up to the number of
/// its words: the histogram has no entry but for lengths from one to the
/// length of the text, and the counts for those add up to the word count.
pub proof fn law_histogram_counts_every_word(text: Seq<char>)
    ensures
        forall|len: nat| #[trigger]
            word_length_histogram(text).contains_key(len) ==> 1 <= len <= text.len(),
        total_up_to(word_length_histogram(text), text.len() as int) == word_count(text),
{
    assert forall|len: nat| #[trigger]
        word_length_histogram(text).contains_key(len) implies 1 <= len <= text.len() by {
        lemma_word_length_range(text, len as int, text.len() as int);
    }
    lemma_total_is_shorter_words(text, text.len() as int);
    lemma_shorter_words_are_all(text, text.len() as int + 1, text.len() as int);
}

} // verus!
