//! The statistics shown beside the text, and the state of their panels.

use vstd::prelude::*;
use std::collections::HashMap;
use crate::chars::{char_frequencies, is_char_frequency_table};
use crate::labels::{char_label, char_label_of};
use crate::words::{histogram_view, word_length_histogram, word_lengths};

verus! {

/// Which of the two statistics panels are shown.
#[derive(Clone, Copy, Debug, PartialEq, Eq, Structural)]
pub struct StatsWindows {
    pub show_word_length: bool,
    pub show_char_count: bool,
}

impl Default for StatsWindows {
    /// Both panels are hidden.
    fn default() -> (windows: StatsWindows)
        ensures
            !windows.show_word_length,
            !windows.show_char_count,
    {
        StatsWindows { show_word_length: false, show_char_count: false }
    }
}

/// Where the caret stands: the paragraph, and the offset within it, both
/// counted from zero.
#[derive(Clone, Copy, Debug, PartialEq, Eq, Structural)]
pub struct CursorPosition {
    pub paragraph: usize,
    pub offset: usize,
}

impl Default for CursorPosition {
    /// The start of the text.
    fn default() -> (cursor: CursorPosition)
        ensures
            cursor == (CursorPosition { paragraph: 0, offset: 0 }),
    {
        CursorPosition { paragraph: 0, offset: 0 }
    }
}

/// The statistics as last computed, the panels' visibility, and the last
/// caret position that the text editor reported.
///
/// The two statistics are snapshots: each is what its `compute_` function
/// found in the text it was last given, and says nothing of any later text.
#[derive(Clone, Debug)]
pub struct Stats {
    pub windows: StatsWindows,
    /// For each word length in characters, the number of words of that length.
    pub word_length: HashMap<usize, usize>,
    /// Each character with the number of its occurrences, the most frequent
    /// first.
    pub chars_count: Vec<(char, usize)>,
    pub last_cursor: CursorPosition,
}

impl Default for Stats {
    /// No statistics, no panel shown, the caret at the start.
    fn default() -> (stats: Stats)
        ensures
            !stats.windows.show_word_length,
            !stats.windows.show_char_count,
            stats.word_length@ == Map::<usize, usize>::empty(),
            stats.chars_count@ == Seq::<(char, usize)>::empty(),
            stats.last_cursor == (CursorPosition { paragraph: 0, offset: 0 }),
    {
        Stats {
            windows: StatsWindows::default(),
            word_length: HashMap::new(),
            chars_count: Vec::new(),
            last_cursor: CursorPosition::default(),
        }
    }
}

impl Stats {
    /// Whether `self` is `before` with the word statistic replaced by the
    /// word-length histogram of `content`, and its panel shown.
    pub open spec fn shows_word_lengths_of(self, before: Stats, content: Seq<char>) -> bool {
        &&& histogram_view(self.word_length@) == word_length_histogram(content)
        &&& self.windows.show_word_length
        &&& self.windows.show_char_count == before.windows.show_char_count
        &&& self.chars_count == before.chars_count
        &&& self.last_cursor == before.last_cursor
    }

    /// Whether `self` is `before` with the character statistic replaced by
    /// the character-frequency table of `content`, and its panel shown.
    pub open spec fn shows_char_counts_of(self, before: Stats, content: Seq<char>) -> bool {
        &&& is_char_frequency_table(self.chars_count@, content)
        &&& self.windows.show_char_count
        &&& self.windows.show_word_length == before.windows.show_word_length
        &&& self.word_length == before.word_length
        &&& self.last_cursor == before.last_cursor
    }

    /// Writes the label under position `index` of the character chart: the
    /// name of the character that the character statistic lists there, and
    /// nothing where it lists none.
    pub fn char_label(&self, index: usize) -> (label: String)
        ensures
            label@ == char_label_of(self.chars_count@, index as int),
    {
        char_label(&self.chars_count, index)
    }

    /// Replaces the character statistic by the character-frequency table of
    /// `content_buffer`.
    pub fn compute_chars_count(&mut self, content_buffer: &str)
        ensures
            is_char_frequency_table(final(self).chars_count@, content_buffer@),
            final(self).word_length == old(self).word_length,
            final(self).windows == old(self).windows,
            final(self).last_cursor == old(self).last_cursor,
    {
        self.chars_count = char_frequencies(content_buffer);
    }

    /// Replaces the word statistic by the word-length histogram of
    /// `content_buffer`.
    pub fn compute_word_length(&mut self, content_buffer: &str)
        ensures
            histogram_view(final(self).word_length@) == word_length_histogram(content_buffer@),
            final(self).chars_count == old(self).chars_count,
            final(self).windows == old(self).windows,
            final(self).last_cursor == old(self).last_cursor,
    {
        self.word_length = word_lengths(content_buffer);
    }
}

} // verus!
