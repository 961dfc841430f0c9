use notepad::notepad::{ErrorReport, MenuItem, Notepad, Request, Status};
use notepad::stats::CursorPosition;
use std::collections::HashMap;
use std::path::PathBuf;

fn opened(path: &str, text: &str) -> Notepad {
    let mut notepad = Notepad::default();
    let report = notepad.action_open(Some((PathBuf::from(path), Ok(text.to_string()))));
    assert_eq!(report, None);
    notepad
}

fn report(title: &str, message: &str) -> Option<ErrorReport> {
    Some(ErrorReport { title: title.to_string(), message: message.to_string() })
}

#[test]
fn a_new_session_holds_the_unnamed_document() {
    let notepad = Notepad::default();
    assert!(notepad.open_file.path.is_none());
    assert_eq!(notepad.open_file.name, "Unnamed");
    assert!(!notepad.open_file.changed);
    assert_eq!(notepad.open_file.content_buffer, "");
    assert_eq!(notepad.title(), "Unnamed");
    assert!(!notepad.can_save());
}

#[test]
fn open_replaces_the_document() {
    let notepad = opened("dir/a.txt", "hello");
    assert_eq!(notepad.open_file.path, Some(PathBuf::from("dir/a.txt")));
    assert_eq!(notepad.open_file.name, "a.txt");
    assert_eq!(notepad.open_file.content_buffer, "hello");
    assert!(!notepad.open_file.changed);
    assert_eq!(notepad.title(), "a.txt");
}

#[test]
fn open_cancelled_leaves_the_document_unchanged() {
    let mut notepad = opened("dir/a.txt", "hello");
    notepad.text_editor_ui(Some("hello!".to_string()), None);
    let before = notepad.open_file.clone();
    assert_eq!(notepad.action_open(None), None);
    assert_eq!(notepad.open_file, before);
}

#[test]
fn open_failed_reports_and_leaves_the_document_unchanged() {
    let mut notepad = opened("dir/a.txt", "hello");
    let before = notepad.open_file.clone();
    let result = notepad.action_open(Some((
        PathBuf::from("gone.txt"),
        Err("No such file or directory (os error 2)".to_string()),
    )));
    assert_eq!(result, report("Failed to open file", "No such file or directory (os error 2)"));
    assert_eq!(notepad.open_file, before);

    let result = notepad.action_open(Some((PathBuf::from("/"), Ok("text".to_string()))));
    assert_eq!(result, report("Failed to open file", "File not found"));
    assert_eq!(notepad.open_file, before);
}

#[test]
fn open_discards_unsaved_changes_without_asking() {
    let mut notepad = opened("a.txt", "one");
    notepad.text_editor_ui(Some("one and a half".to_string()), None);
    assert!(notepad.open_file.changed);
    assert_eq!(notepad.action_open(Some((PathBuf::from("b.txt"), Ok("two".to_string())))), None);
    assert_eq!(notepad.open_file.name, "b.txt");
    assert_eq!(notepad.open_file.content_buffer, "two");
    assert!(!notepad.open_file.changed);
}

#[test]
fn open_leaves_the_statistics_stale_and_their_panels_open() {
    let mut notepad = opened("a.txt", "aab aab");
    notepad.action_show_word_length_stats();
    notepad.action_show_char_count_stats();
    assert_eq!(notepad.action_open(Some((PathBuf::from("b.txt"), Ok("zz".to_string())))), None);
    assert!(notepad.stats.windows.show_word_length);
    assert!(notepad.stats.windows.show_char_count);
    assert_eq!(notepad.stats.word_length, HashMap::from([(3, 2)]));
    assert_eq!(notepad.stats.chars_count, vec![('a', 4), ('b', 2), (' ', 1)]);
}

#[test]
fn the_title_carries_a_star_while_there_are_unsaved_changes() {
    let mut notepad = opened("dir/a.txt", "hello");
    assert_eq!(notepad.title(), "a.txt");
    notepad.text_editor_ui(Some("hello!".to_string()), None);
    assert_eq!(notepad.title(), "*a.txt");
    assert_eq!(notepad.action_save(Ok(())), None);
    assert_eq!(notepad.title(), "a.txt");
}

#[test]
fn save_is_possible_only_with_changes_and_a_path() {
    let mut unnamed = Notepad::default();
    assert!(!unnamed.can_save());
    unnamed.text_editor_ui(Some("draft".to_string()), None);
    assert!(!unnamed.can_save());

    let mut named = opened("a.txt", "one");
    assert!(!named.can_save());
    named.text_editor_ui(Some("two".to_string()), None);
    assert!(named.can_save());
    assert_eq!(named.action_save(Ok(())), None);
    assert!(!named.can_save());
}

#[test]
fn the_save_combination_asks_for_a_write_only_where_save_is_possible() {
    let mut notepad = opened("a.txt", "one");
    assert_eq!(notepad.handle_hotkeys(true), Request::Nothing);
    assert_eq!(notepad.handle_hotkeys(false), Request::Nothing);
    notepad.text_editor_ui(Some("two".to_string()), None);
    assert_eq!(notepad.handle_hotkeys(false), Request::Nothing);
    assert_eq!(notepad.handle_hotkeys(true), Request::WriteToBackingPath);

    let mut unnamed = Notepad::default();
    unnamed.text_editor_ui(Some("draft".to_string()), None);
    assert_eq!(unnamed.handle_hotkeys(true), Request::Nothing);
}

#[test]
fn the_menu_disables_save_where_save_is_not_possible() {
    let mut notepad = opened("a.txt", "one");
    assert!(notepad.menu_enabled(MenuItem::Open));
    assert!(!notepad.menu_enabled(MenuItem::Save));
    assert!(notepad.menu_enabled(MenuItem::SaveAs));
    assert!(notepad.menu_enabled(MenuItem::WordLengthStats));
    assert!(notepad.menu_enabled(MenuItem::CharCountStats));
    notepad.text_editor_ui(Some("two".to_string()), None);
    assert!(notepad.menu_enabled(MenuItem::Save));
}

#[test]
fn menu_clicks_on_file_entries_ask_for_the_outside_work() {
    let mut notepad = opened("a.txt", "one");
    let before = notepad.open_file.clone();
    assert_eq!(notepad.menu_clicked(MenuItem::Open), Request::PickFileToOpen);
    assert_eq!(notepad.menu_clicked(MenuItem::SaveAs), Request::PickFileToSaveAs);
    assert_eq!(notepad.menu_clicked(MenuItem::Save), Request::Nothing);
    assert_eq!(notepad.open_file, before);
    notepad.text_editor_ui(Some("two".to_string()), None);
    assert_eq!(notepad.menu_clicked(MenuItem::Save), Request::WriteToBackingPath);
    assert!(notepad.open_file.changed);
}

#[test]
fn menu_clicks_on_statistics_entries_compute_and_show() {
    let mut notepad = opened("a.txt", "ab a");
    assert_eq!(notepad.menu_clicked(MenuItem::WordLengthStats), Request::Nothing);
    assert!(notepad.stats.windows.show_word_length);
    assert!(!notepad.stats.windows.show_char_count);
    assert_eq!(notepad.stats.word_length, HashMap::from([(2, 1), (1, 1)]));
    assert!(notepad.stats.chars_count.is_empty());

    assert_eq!(notepad.menu_clicked(MenuItem::CharCountStats), Request::Nothing);
    assert!(notepad.stats.windows.show_char_count);
    assert_eq!(notepad.stats.chars_count, vec![('a', 2), (' ', 1), ('b', 1)]);
}

#[test]
fn statistics_of_a_loaded_file() {
    let mut notepad = opened("words.txt", "ab a");
    notepad.action_show_word_length_stats();
    assert_eq!(notepad.stats.word_length, HashMap::from([(2, 1), (1, 1)]));

    let mut notepad = opened("chars.txt", "aab");
    notepad.action_show_char_count_stats();
    assert_eq!(notepad.stats.chars_count, vec![('a', 2), ('b', 1)]);
}

#[test]
fn statistics_stay_as_computed_until_asked_for_again() {
    let mut notepad = opened("a.txt", "aa bb");
    notepad.action_show_word_length_stats();
    notepad.action_show_char_count_stats();
    notepad.text_editor_ui(Some("c".to_string()), None);
    assert_eq!(notepad.stats.word_length, HashMap::from([(2, 2)]));
    assert_eq!(notepad.stats.chars_count, vec![('b', 2), ('a', 2), (' ', 1)]);
    notepad.action_show_word_length_stats();
    notepad.action_show_char_count_stats();
    assert_eq!(notepad.stats.word_length, HashMap::from([(1, 1)]));
    assert_eq!(notepad.stats.chars_count, vec![('c', 1)]);
}

#[test]
fn a_closed_panel_is_shown_again_by_its_action() {
    let mut notepad = opened("a.txt", "aa bb");
    notepad.action_show_word_length_stats();
    notepad.stats.windows.show_word_length = false;
    notepad.action_show_char_count_stats();
    assert!(!notepad.stats.windows.show_word_length);
    assert!(notepad.stats.windows.show_char_count);
    notepad.action_show_word_length_stats();
    assert!(notepad.stats.windows.show_word_length);
}

#[test]
fn save_without_a_path_reports_and_keeps_the_changes() {
    let mut notepad = Notepad::default();
    notepad.text_editor_ui(Some("draft".to_string()), None);
    assert_eq!(
        notepad.action_save(Ok(())),
        report("Failed to save file", "File path doesn't exist")
    );
    assert!(notepad.open_file.changed);
    assert!(notepad.open_file.path.is_none());
}

#[test]
fn save_with_a_failed_write_reports_and_keeps_the_changes() {
    let mut notepad = opened("a.txt", "one");
    notepad.text_editor_ui(Some("two".to_string()), None);
    assert_eq!(
        notepad.action_save(Err("No space left on device".to_string())),
        report("Failed to save file", "No space left on device")
    );
    assert!(notepad.open_file.changed);
    assert_eq!(notepad.open_file.content_buffer, "two");
}

#[test]
fn save_as_cancelled_does_nothing() {
    let mut notepad = opened("a.txt", "one");
    notepad.text_editor_ui(Some("two".to_string()), None);
    let before = notepad.open_file.clone();
    assert_eq!(notepad.action_save_as(None), None);
    assert_eq!(notepad.open_file, before);
}

#[test]
fn save_as_moves_the_document_and_keeps_its_name() {
    let mut notepad = opened("dir/a.txt", "one");
    notepad.text_editor_ui(Some("two".to_string()), None);
    assert_eq!(notepad.action_save_as(Some((PathBuf::from("other/b.txt"), Ok(())))), None);
    assert_eq!(notepad.open_file.path, Some(PathBuf::from("other/b.txt")));
    assert_eq!(notepad.open_file.name, "a.txt");
    assert!(!notepad.open_file.changed);
    assert_eq!(notepad.title(), "a.txt");
}

#[test]
fn save_as_with_a_failed_write_keeps_the_new_path_and_reports() {
    let mut notepad = opened("dir/a.txt", "one");
    notepad.text_editor_ui(Some("two".to_string()), None);
    assert_eq!(
        notepad.action_save_as(Some((
            PathBuf::from("/nowhere/b.txt"),
            Err("No such file or directory (os error 2)".to_string()),
        ))),
        report("Failed to save file", "No such file or directory (os error 2)")
    );
    assert_eq!(notepad.open_file.path, Some(PathBuf::from("/nowhere/b.txt")));
    assert_eq!(notepad.open_file.name, "a.txt");
    assert!(notepad.open_file.changed);
}

#[test]
fn the_editor_report_without_an_edit_keeps_the_document_clean() {
    let mut notepad = opened("a.txt", "one");
    notepad.text_editor_ui(None, Some(CursorPosition { paragraph: 0, offset: 2 }));
    assert!(!notepad.open_file.changed);
    assert_eq!(notepad.open_file.content_buffer, "one");
    assert_eq!(notepad.stats.last_cursor, CursorPosition { paragraph: 0, offset: 2 });
}

#[test]
fn the_caret_counts_as_at_the_start_when_none_is_reported() {
    let mut notepad = opened("a.txt", "one\ntwo");
    notepad.text_editor_ui(None, Some(CursorPosition { paragraph: 1, offset: 3 }));
    assert_eq!(notepad.info_panel_ui().row, 2);
    assert_eq!(notepad.info_panel_ui().column, 4);
    notepad.text_editor_ui(None, None);
    assert_eq!(notepad.stats.last_cursor, CursorPosition { paragraph: 0, offset: 0 });
    assert_eq!(notepad.info_panel_ui().row, 1);
    assert_eq!(notepad.info_panel_ui().column, 1);
}

#[test]
fn the_status_of_the_empty_document() {
    let notepad = Notepad::default();
    assert_eq!(
        notepad.info_panel_ui(),
        Status { row: 1, column: 1, characters: 0, words: 0, lines: 0 }
    );
}

#[test]
fn the_status_counts_words_lines_and_bytes() {
    let mut notepad = opened("a.txt", "one two\nthree\n");
    notepad.text_editor_ui(None, Some(CursorPosition { paragraph: 1, offset: 5 }));
    assert_eq!(
        notepad.info_panel_ui(),
        Status { row: 2, column: 6, characters: 14, words: 3, lines: 2 }
    );
}

#[test]
fn the_status_counts_the_bytes_of_the_text_not_its_characters() {
    let notepad = opened("a.txt", "caf\u{e9} \u{4e16}\u{754c}");
    let status = notepad.info_panel_ui();
    assert_eq!(status.characters, 12);
    assert_eq!(status.words, 2);
    assert_eq!(status.lines, 1);
}

#[test]
fn the_status_does_not_overflow_at_the_largest_caret_position() {
    let mut notepad = Notepad::default();
    notepad.text_editor_ui(
        None,
        Some(CursorPosition { paragraph: usize::MAX, offset: usize::MAX }),
    );
    let status = notepad.info_panel_ui();
    assert_eq!(status.row, usize::MAX as u128 + 1);
    assert_eq!(status.column, usize::MAX as u128 + 1);
}
