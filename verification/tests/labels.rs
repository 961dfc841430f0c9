use notepad::labels::{char_label, number_label};
use notepad::notepad::Status;
use notepad::stats::Stats;

#[test]
fn number_label_writes_the_number_in_decimal() {
    assert_eq!(number_label("Row: ", 1), "Row: 1");
    assert_eq!(number_label("Words: ", 0), "Words: 0");
    assert_eq!(number_label("", 1203), "1203");
    assert_eq!(
        number_label("Column: ", 18446744073709551616),
        "Column: 18446744073709551616"
    );
}

#[test]
fn char_label_shows_letters_and_numbers_as_they_are() {
    let table = vec![('a', 3), ('7', 2), ('\u{e9}', 1), ('\u{4e16}', 1)];
    assert_eq!(char_label(&table, 0), "a");
    assert_eq!(char_label(&table, 1), "7");
    assert_eq!(char_label(&table, 2), "\u{e9}");
    assert_eq!(char_label(&table, 3), "\u{4e16}");
}

#[test]
fn char_label_shows_other_characters_by_their_code() {
    let table = vec![(' ', 9), ('\n', 4), ('!', 2), ('\u{1f600}', 1)];
    assert_eq!(char_label(&table, 0), "Code: '32'");
    assert_eq!(char_label(&table, 1), "Code: '10'");
    assert_eq!(char_label(&table, 2), "Code: '33'");
    assert_eq!(char_label(&table, 3), "Code: '128512'");
}

#[test]
fn char_label_is_empty_past_the_end_of_the_table() {
    let table = vec![('a', 1)];
    assert_eq!(char_label(&table, 1), "");
    assert_eq!(char_label(&table, usize::MAX), "");
    assert_eq!(char_label(&Vec::new(), 0), "");
}

#[test]
fn stats_char_label_reads_the_computed_table() {
    let mut stats = Stats::default();
    assert_eq!(stats.char_label(0), "");
    stats.compute_chars_count("aa a b");
    assert_eq!(stats.char_label(0), "a");
    assert_eq!(stats.char_label(1), "Code: '32'");
    assert_eq!(stats.char_label(2), "b");
    assert_eq!(stats.char_label(3), "");
}

#[test]
fn status_labels_read_from_left_to_right() {
    let status = Status { row: 3, column: 14, characters: 120, words: 21, lines: 4 };
    assert_eq!(
        status.labels(),
        vec!["Row: 3", "Column: 14", "Characters: 120", "Words: 21", "Lines: 4"]
    );
}
