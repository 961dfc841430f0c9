//! How often each character occurs in a text.

use vstd::prelude::*;
use std::collections::HashMap;
use crate::text::utf8_len;

verus! {

/// The number of positions of `text` that hold `c`.
pub open spec fn occurrences(text: Seq<char>, c: char) -> nat
    decreases text.len(),
{
    if text.len() == 0 {
        0
    } else {
        occurrences(text.drop_last(), c) + if text.last() == c {
            1nat
        } else {
            0nat
        }
    }
}

/// The first position of `text` that holds `c`; the length of `text` where
/// none does.
pub open spec fn first_position(text: Seq<char>, c: char) -> int
    decreases text.len(),
{
    if text.len() == 0 {
        0
    } else if text[0] == c {
        0
    } else {
        1 + first_position(text.drop_first(), c)
    }
}

/// Whether some entry of `table` is for `c`.
pub open spec fn lists(table: Seq<(char, usize)>, c: char) -> bool {
    exists|i: int| 0 <= i < table.len() && (#[trigger] table[i]).0 == c
}

/// Whether `table` lists each character that occurs in `text` once, with the
/// number of its occurrences.
pub open spec fn tallies(table: Seq<(char, usize)>, text: Seq<char>) -> bool {
    &&& forall|i: int|
        0 <= i < table.len() ==> (#[trigger] table[i]).1 > 0 && table[i].1 == occurrences(
            text,
            table[i].0,
        )
    &&& forall|i: int, j: int|
        0 <= i < j < table.len() ==> (#[trigger] table[i]).0 != (#[trigger] table[j]).0
    &&& forall|k: int| 0 <= k < text.len() ==> lists(table, #[trigger] text[k])
}

/// Whether `table` is the character-frequency table of `text`: each
/// character that occurs, once, with the number of its occurrences; the more
/// frequent first; and of two characters that are equally frequent, the one
/// first that enters the text later.
pub open spec fn is_char_frequency_table(table: Seq<(char, usize)>, text: Seq<char>) -> bool {
    &&& tallies(table, text)
    &&& forall|i: int, j: int|
        0 <= i <= j < table.len() ==> (#[trigger] table[i]).1 >= (#[trigger] table[j]).1
    &&& forall|i: int, j: int|
        0 <= i < j < table.len() && (#[trigger] table[i]).1 == (#[trigger] table[j]).1
            ==> first_position(text, table[i].0) > first_position(text, table[j].0)
}

/// A character occurs no more often than the text has positions.
proof fn lemma_occurrences_bound(text: Seq<char>, c: char)
    ensures
        occurrences(text, c) <= text.len(),
    decreases text.len(),
{
    if text.len() > 0 {
        lemma_occurrences_bound(text.drop_last(), c);
    }
}

/// A character has no occurrence exactly if no position holds it.
proof fn lemma_occurrences_zero(text: Seq<char>, c: char)
    ensures
        occurrences(text, c) == 0 <==> forall|k: int| 0 <= k < text.len() ==> text[k] != c,
    decreases text.len(),
{
    if text.len() > 0 {
        let front = text.drop_last();
        lemma_occurrences_zero(front, c);
        if occurrences(text, c) == 0 {
            assert forall|k: int| 0 <= k < text.len() implies text[k] != c by {
                if k < front.len() {
                    assert(front[k] == text[k]);
                }
            }
        }
    }
}

/// The first position of a character is where it stands and nothing before
/// it does, and no other position is such.
proof fn lemma_first_position(text: Seq<char>, c: char, at: int)
    ensures
        0 <= first_position(text, c) <= text.len(),
        first_position(text, c) < text.len() ==> text[first_position(text, c)] == c,
        forall|k: int| 0 <= k < first_position(text, c) ==> text[k] != c,
        (0 <= at < text.len() && text[at] == c && forall|k: int| 0 <= k < at ==> text[k] != c)
            ==> first_position(text, c) == at,
    decreases text.len(),
{
    if text.len() > 0 && text[0] != c {
        let rest = text.drop_first();
        lemma_first_position(rest, c, at - 1);
        assert forall|k: int| 0 <= k < first_position(text, c) implies text[k] != c by {
            if k > 0 {
                assert(rest[k - 1] == text[k]);
            }
        }
    }
}

/// Reading one more character adds one occurrence of it and none of any
/// other.
pub proof fn lemma_occurrences_step(text: Seq<char>, end: int, c: char)
    requires
        0 <= end < text.len(),
    ensures
        occurrences(text.take(end + 1), c) == occurrences(text.take(end), c) + if text[end] == c {
            1nat
        } else {
            0nat
        },
{
    assert(text.take(end + 1).drop_last() =~= text.take(end));
}

/// Whether `entries` lists the characters of the first `end` positions of
/// `text`, each with the number of its occurrences there, in the order in
/// which they enter the text.
spec fn tallies_in_order(entries: Seq<(char, usize)>, text: Seq<char>, end: int) -> bool {
    &&& tallies(entries, text.take(end))
    &&& forall|i: int|
        0 <= i < entries.len() ==> first_position(text, (#[trigger] entries[i]).0) < end
    &&& forall|i: int, j: int|
        0 <= i < j < entries.len() ==> first_position(text, (#[trigger] entries[i]).0)
            < first_position(text, (#[trigger] entries[j]).0)
}

/// Whether `places` maps the code point of each listed character, and of no
/// other, to the position of its entry.
spec fn finds(places: Map<u32, usize>, entries: Seq<(char, usize)>) -> bool {
    &&& forall|i: int|
        0 <= i < entries.len() ==> places.contains_key((#[trigger] entries[i]).0 as u32)
            && places[entries[i].0 as u32] == i
    &&& forall|code: u32| #[trigger]
        places.contains_key(code) ==> {
            &&& places[code] < entries.len()
            &&& entries[places[code] as int].0 as u32 == code
        }
}

/// Counting one more occurrence of a listed character keeps the list right
/// for the text read so far.
proof fn lemma_tally_seen(
    before: Seq<(char, usize)>,
    text: Seq<char>,
    end: int,
    at: int,
)
    requires
        0 <= end < text.len(),
        tallies_in_order(before, text, end),
        0 <= at < before.len(),
        before[at].0 == text[end],
        before[at].1 < usize::MAX,
    ensures
        tallies_in_order(
            before.update(at, (text[end], (before[at].1 + 1) as usize)),
            text,
            end + 1,
        ),
{
    let after = before.update(at, (text[end], (before[at].1 + 1) as usize));
    let seen = text.take(end);
    let now = text.take(end + 1);
    assert forall|i: int| 0 <= i < after.len() implies (#[trigger] after[i]).1 > 0 && after[i].1
        == occurrences(now, after[i].0) by {
        lemma_occurrences_step(text, end, after[i].0);
    }
    assert forall|k: int| 0 <= k < now.len() implies lists(after, #[trigger] now[k]) by {
        if k < end {
            let i = choose|i: int| 0 <= i < before.len() && (#[trigger] before[i]).0 == seen[k];
            assert(after[i].0 == now[k]);
        } else {
            assert(after[at].0 == now[k]);
        }
    }
}

/// Listing a character that the text read so far does not hold, with one
/// occurrence, keeps the list right for the text read so far.
proof fn lemma_tally_new(before: Seq<(char, usize)>, text: Seq<char>, end: int)
    requires
        0 <= end < text.len(),
        tallies_in_order(before, text, end),
        forall|i: int| 0 <= i < before.len() ==> (#[trigger] before[i]).0 != text[end],
    ensures
        tallies_in_order(before.push((text[end], 1usize)), text, end + 1),
{
    let c = text[end];
    let after = before.push((c, 1usize));
    let seen = text.take(end);
    let now = text.take(end + 1);
    lemma_occurrences_zero(seen, c);
    assert forall|k: int| 0 <= k < end implies text[k] != c by {
        assert(seen[k] == text[k]);
    }
    lemma_first_position(text, c, end);
    assert forall|i: int| 0 <= i < after.len() implies (#[trigger] after[i]).1 > 0 && after[i].1
        == occurrences(now, after[i].0) by {
        lemma_occurrences_step(text, end, after[i].0);
    }
    assert forall|k: int| 0 <= k < now.len() implies lists(after, #[trigger] now[k]) by {
        if k < end {
            let i = choose|i: int| 0 <= i < before.len() && (#[trigger] before[i]).0 == seen[k];
            assert(after[i].0 == now[k]);
        } else {
            assert(after[before.len() as int].0 == now[k]);
        }
    }
}

/// Lists the characters of `text` in the order in which they enter it, each
/// with the number of its occurrences.
fn tally(text: &str) -> (entries: Vec<(char, usize)>)
    ensures
        tallies_in_order(entries@, text@, text@.len() as int),
{
    let size = utf8_len(text);
    let mut entries: Vec<(char, usize)> = Vec::new();
    let mut places: HashMap<u32, usize> = HashMap::new();
    for c in it: text.chars()
        invariant
            it.seq() == text@,
            text@.len() <= size,
            tallies_in_order(entries@, text@, it.index() as int),
            finds(places@, entries@),
    {
        let ghost end = it.index() as int;
        let ghost before = entries@;
        let code = c as u32;
        match places.get(&code) {
            Some(at) => {
                let at = *at;
                let count = entries[at].1;
                proof {
                    vstd::utf8::char_u32_cast(before[at as int].0, code);
                    vstd::utf8::char_u32_cast(c, code);
                    lemma_occurrences_bound(text@.take(end), c);
                    lemma_tally_seen(before, text@, end, at as int);
                }
                entries.set(at, (c, count + 1));
            },
            None => {
                proof {
                    lemma_tally_new(before, text@, end);
                }
                places.insert(code, entries.len());
                entries.push((c, 1));
            },
        }
    }
    entries
}

/// Whether `from` holds each position below `len` exactly once.
spec fn is_permutation(from: Seq<int>, len: nat) -> bool {
    &&& from.len() == len
    &&& forall|i: int| 0 <= i < len ==> 0 <= #[trigger] from[i] < len
    &&& forall|i: int, j: int| 0 <= i < j < len ==> #[trigger] from[i] != #[trigger] from[j]
    &&& forall|k: int| 0 <= k < len ==> #[trigger] from.contains(k)
}

/// Whether `after` holds the entries of `before` in the order of their
/// counts, the least first, and entries of equal count in the order that
/// they have in `before`. `from[i]` is the position in `before` of the entry
/// that stands at position `i` of `after`.
spec fn is_stable_sort_by_count(
    before: Seq<(char, usize)>,
    after: Seq<(char, usize)>,
    from: Seq<int>,
) -> bool {
    &&& after.len() == before.len()
    &&& is_permutation(from, before.len())
    &&& forall|i: int| 0 <= i < after.len() ==> #[trigger] after[i] == before[from[i]]
    &&& forall|i: int, j: int|
        0 <= i <= j < after.len() ==> (#[trigger] after[i]).1 <= (#[trigger] after[j]).1
    &&& forall|i: int, j: int|
        0 <= i < j < after.len() && (#[trigger] after[i]).1 == (#[trigger] after[j]).1 ==> from[i]
            < from[j]
}

/// Calls `sort_by_key` of slices, with the count of an entry as its key.
/// That sort is stable: the contract claims that the entries are rearranged
/// into the order of their counts, the least first, and that entries of equal
/// count keep their order.
#[verifier::external_body]
fn sort_by_count(entries: &mut Vec<(char, usize)>)
    ensures
        exists|from: Seq<int>| is_stable_sort_by_count(old(entries)@, final(entries)@, from),
{
    entries.sort_by_key(|entry| entry.1);
}

/// The entries in order of first appearance, sorted stably by count and then
/// read backwards, are the character-frequency table of the text.
proof fn lemma_backwards_is_table(
    entries: Seq<(char, usize)>,
    sorted: Seq<(char, usize)>,
    from: Seq<int>,
    table: Seq<(char, usize)>,
    text: Seq<char>,
)
    requires
        tallies_in_order(entries, text, text.len() as int),
        is_stable_sort_by_count(entries, sorted, from),
        table.len() == sorted.len(),
        forall|i: int| 0 <= i < table.len() ==> #[trigger] table[i] == sorted[sorted.len() - 1 - i],
    ensures
        is_char_frequency_table(table, text),
{
    let n = table.len() as int;
    assert(text.take(text.len() as int) =~= text);
    assert forall|k: int| 0 <= k < text.len() implies lists(table, #[trigger] text[k]) by {
        let m = choose|m: int| 0 <= m < entries.len() && (#[trigger] entries[m]).0 == text[k];
        assert(from.contains(m));
        let p = choose|p: int| 0 <= p < n && from[p] == m;
        assert(table[n - 1 - p].0 == text[k]);
    }
}

/// Computes the character-frequency table of `text`: each character that
/// occurs in it with the number of its occurrences, the most frequent first.
pub fn char_frequencies(text: &str) -> (table: Vec<(char, usize)>)
    ensures
        is_char_frequency_table(table@, text@),
{
    let mut entries = tally(text);
    let ghost listed = entries@;
    sort_by_count(&mut entries);
    let mut table: Vec<(char, usize)> = Vec::new();
    let mut left = entries.len();
    while left > 0
        invariant
            left <= entries.len(),
            table.len() == entries.len() - left,
            forall|i: int|
                0 <= i < table.len() ==> #[trigger] table@[i] == entries@[entries.len() - 1 - i],
        decreases left,
    {
        left = left - 1;
        table.push(entries[left]);
    }
    proof {
        let from = choose|from: Seq<int>| is_stable_sort_by_count(listed, entries@, from);
        lemma_backwards_is_table(listed, entries@, from, table@, text@);
    }
    table
}

/// The sum of the counts of a table.
pub open spec fn total_count(table: Seq<(char, usize)>) -> nat
    decreases table.len(),
{
    if table.len() == 0 {
        0
    } else {
        total_count(table.drop_last()) + table.last().1 as nat
    }
}

/// The number of entries of `table` that list `c`.
spec fn listings(table: Seq<(char, usize)>, c: char) -> nat
    decreases table.len(),
{
    if table.len() == 0 {
        0
    } else {
        listings(table.drop_last(), c) + if table.last().0 == c {
            1nat
        } else {
            0nat
        }
    }
}

/// The occurrences in `text` of the characters that `table` lists, added up
/// entry by entry.
spec fn listed_occurrences(table: Seq<(char, usize)>, text: Seq<char>) -> nat
    decreases table.len(),
{
    if table.len() == 0 {
        0
    } else {
        listed_occurrences(table.drop_last(), text) + occurrences(text, table.last().0)
    }
}

/// A character that no entry lists has no listing.
proof fn lemma_unlisted(table: Seq<(char, usize)>, c: char)
    requires
        forall|i: int| 0 <= i < table.len() ==> (#[trigger] table[i]).0 != c,
    ensures
        listings(table, c) == 0,
    decreases table.len(),
{
    if table.len() > 0 {
        let front = table.drop_last();
        lemma_unlisted(front, c);
    }
}

/// In a table that lists no character twice, a listed character has one
/// listing.
proof fn lemma_listed_once(table: Seq<(char, usize)>, at: int)
    requires
        0 <= at < table.len(),
        forall|i: int, j: int|
            0 <= i < j < table.len() ==> (#[trigger] table[i]).0 != (#[trigger] table[j]).0,
    ensures
        listings(table, table[at].0) == 1,
    decreases table.len(),
{
    let c = table[at].0;
    let front = table.drop_last();
    if at == table.len() - 1 {
        lemma_unlisted(front, c);
    } else {
        lemma_listed_once(front, at);
    }
}

/// One more character of text adds as many listed occurrences as the table
/// has listings of it.
proof fn lemma_listed_occurrences_step(table: Seq<(char, usize)>, text: Seq<char>)
    requires
        text.len() > 0,
    ensures
        listed_occurrences(table, text) == listed_occurrences(table, text.drop_last()) + listings(
            table,
            text.last(),
        ),
    decreases table.len(),
{
    if table.len() > 0 {
        lemma_listed_occurrences_step(table.drop_last(), text);
    }
}

/// Where a table lists no character twice and every character of a text,
/// the listed occurrences are as many as the text has positions.
proof fn lemma_listed_occurrences_cover(table: Seq<(char, usize)>, text: Seq<char>)
    requires
        forall|i: int, j: int|
            0 <= i < j < table.len() ==> (#[trigger] table[i]).0 != (#[trigger] table[j]).0,
        forall|k: int| 0 <= k < text.len() ==> lists(table, #[trigger] text[k]),
    ensures
        listed_occurrences(table, text) == text.len(),
    decreases text.len(),
{
    if text.len() == 0 {
        assert(text =~= Seq::<char>::empty());
        lemma_listed_occurrences_empty(table);
    } else {
        let front = text.drop_last();
        lemma_listed_occurrences_cover(table, front);
        lemma_listed_occurrences_step(table, text);
        let last = text.len() - 1;
        let at = choose|i: int| 0 <= i < table.len() && (#[trigger] table[i]).0 == text[last];
        lemma_listed_once(table, at);
    }
}

/// In the empty text nothing occurs.
proof fn lemma_listed_occurrences_empty(table: Seq<(char, usize)>)
    ensures
        listed_occurrences(table, Seq::<char>::empty()) == 0,
    decreases table.len(),
{
    if table.len() > 0 {
        lemma_listed_occurrences_empty(table.drop_last());
    }
}

/// Where each count is the number of occurrences of its character, the
/// counts add up to the listed occurrences.
proof fn lemma_total_is_listed_occurrences(table: Seq<(char, usize)>, text: Seq<char>)
    requires
        forall|i: int|
            0 <= i < table.len() ==> (#[trigger] table[i]).1 == occurrences(text, table[i].0),
    ensures
        total_count(table) == listed_occurrences(table, text),
    decreases table.len(),
{
    if table.len() > 0 {
        let front = table.drop_last();
        lemma_total_is_listed_occurrences(front, text);
    }
}

/// The counts of the character-frequency table of a text add up to the
/// number of characters of the text, and no count is followed by a larger
/// one.
pub proof fn law_char_counts_cover_text(table: Seq<(char, usize)>, text: Seq<char>)
    requires
        is_char_frequency_table(table, text),
    ensures
        total_count(table) == text.len(),
        forall|i: int, j: int| 0 <= i <= j < table.len() ==> table[i].1 >= table[j].1,
{
    lemma_total_is_listed_occurrences(table, text);
    lemma_listed_occurrences_cover(table, text);
}

} // verus!
