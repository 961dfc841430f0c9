use notepad::error::IoError;
use notepad::open_file::OpenFile;
use std::path::PathBuf;

fn loaded(path: &str, text: &str) -> OpenFile {
    OpenFile::open_path(&PathBuf::from(path), Ok(text.to_string())).unwrap()
}

#[test]
fn default_document_is_unnamed_and_clean() {
    let file = OpenFile::default();
    assert!(file.path.is_none());
    assert_eq!(file.name, "Unnamed");
    assert!(!file.changed);
    assert_eq!(file.content_buffer, "");
}

#[test]
fn open_path_builds_a_clean_document_named_after_the_last_component() {
    let path = PathBuf::from("some/dir/notes.txt");
    let file = OpenFile::open_path(&path, Ok("first\nsecond".to_string())).unwrap();
    assert_eq!(file.path, Some(path));
    assert_eq!(file.name, "notes.txt");
    assert!(!file.changed);
    assert_eq!(file.content_buffer, "first\nsecond");
}

#[test]
fn open_path_ignores_a_trailing_separator_in_the_name() {
    let file = loaded("some/dir/", "");
    assert_eq!(file.name, "dir");
    assert_eq!(file.path, Some(PathBuf::from("some/dir/")));
}

#[test]
fn open_path_rejects_a_path_without_a_final_component() {
    for path in ["", "/", "..", "some/dir/.."] {
        let result = OpenFile::open_path(&PathBuf::from(path), Ok("text".to_string()));
        assert_eq!(result, Err(IoError::FileNotFound));
    }
}

#[test]
fn open_path_reports_the_missing_name_before_the_failed_read() {
    let result = OpenFile::open_path(&PathBuf::from(".."), Err("Is a directory".to_string()));
    assert_eq!(result, Err(IoError::FileNotFound));
}

#[test]
fn open_path_hands_on_the_message_of_a_failed_read() {
    let result = OpenFile::open_path(
        &PathBuf::from("missing.txt"),
        Err("No such file or directory (os error 2)".to_string()),
    );
    assert_eq!(
        result,
        Err(IoError::ReadFailed("No such file or directory (os error 2)".to_string()))
    );
}

#[test]
fn error_messages() {
    assert_eq!(IoError::FileNotFound.message(), "File not found");
    assert_eq!(IoError::NoBackingPath.message(), "File path doesn't exist");
    assert_eq!(
        IoError::ReadFailed("stream did not contain valid UTF-8".to_string()).message(),
        "stream did not contain valid UTF-8"
    );
    assert_eq!(
        IoError::WriteFailed("Permission denied".to_string()).message(),
        "Permission denied"
    );
}

#[test]
fn edit_replaces_the_text_and_marks_the_document_changed() {
    let mut file = loaded("a.txt", "old");
    file.edit("new".to_string());
    assert_eq!(file.content_buffer, "new");
    assert!(file.changed);
    assert_eq!(file.name, "a.txt");
    assert_eq!(file.path, Some(PathBuf::from("a.txt")));
}

#[test]
fn edit_to_the_same_text_still_marks_the_document_changed() {
    let mut file = loaded("a.txt", "same");
    file.edit("same".to_string());
    assert!(file.changed);
}

#[test]
fn write_request_names_the_backing_path_and_the_whole_content() {
    let file = loaded("dir/a.txt", "line one\nline two\n");
    let (path, content) = file.write_request().unwrap();
    assert_eq!(path, &PathBuf::from("dir/a.txt"));
    assert_eq!(content, "line one\nline two\n");
    assert!(OpenFile::default().write_request().is_none());
}

#[test]
fn load_then_save_writes_back_what_was_read_and_stays_clean() {
    let text = "caf\u{e9} \u{4e16}\u{754c}\r\nlast line without end";
    let mut file = loaded("dir/a.txt", text);
    let before = file.clone();
    {
        let (path, content) = file.write_request().unwrap();
        assert_eq!(path, &PathBuf::from("dir/a.txt"));
        assert_eq!(content.as_bytes(), text.as_bytes());
    }
    assert_eq!(file.save(Ok(())), Ok(()));
    assert!(!file.changed);
    assert_eq!(file, before);
}

#[test]
fn changed_is_set_by_an_edit_and_cleared_by_a_successful_save() {
    let mut file = loaded("a.txt", "one");
    assert!(!file.changed);
    file.edit("two".to_string());
    assert!(file.changed);
    assert_eq!(file.save(Ok(())), Ok(()));
    assert!(!file.changed);
    assert_eq!(file.content_buffer, "two");
    file.edit("three".to_string());
    assert!(file.changed);
}

#[test]
fn save_without_a_path_fails_and_leaves_changed_as_it_was() {
    let mut clean = OpenFile::default();
    assert_eq!(clean.save(Ok(())), Err(IoError::NoBackingPath));
    assert!(!clean.changed);
    assert!(clean.path.is_none());

    let mut dirty = OpenFile::default();
    dirty.edit("draft".to_string());
    assert_eq!(dirty.save(Ok(())), Err(IoError::NoBackingPath));
    assert!(dirty.changed);
    assert_eq!(dirty.content_buffer, "draft");
    assert_eq!(dirty.save(Err("unused".to_string())), Err(IoError::NoBackingPath));
    assert!(dirty.changed);
}

#[test]
fn save_with_a_failed_write_keeps_the_document_changed() {
    let mut file = loaded("a.txt", "one");
    file.edit("two".to_string());
    let before = file.clone();
    assert_eq!(
        file.save(Err("Permission denied".to_string())),
        Err(IoError::WriteFailed("Permission denied".to_string()))
    );
    assert_eq!(file, before);
    assert!(file.changed);
}

#[test]
fn save_as_changes_the_path_but_not_the_name() {
    let mut file = loaded("dir/a.txt", "text");
    assert_eq!(file.save_as(PathBuf::from("other/b.txt"), Ok(())), Ok(()));
    assert_eq!(file.path, Some(PathBuf::from("other/b.txt")));
    assert_eq!(file.name, "a.txt");
    assert!(!file.changed);
    assert_eq!(file.content_buffer, "text");
}

#[test]
fn save_as_gives_the_unnamed_document_a_path_and_keeps_its_name() {
    let mut file = OpenFile::default();
    file.edit("draft".to_string());
    assert_eq!(file.save_as(PathBuf::from("draft.txt"), Ok(())), Ok(()));
    assert_eq!(file.path, Some(PathBuf::from("draft.txt")));
    assert_eq!(file.name, "Unnamed");
    assert!(!file.changed);
}

#[test]
fn save_as_keeps_the_new_path_when_the_write_failed() {
    let mut file = loaded("dir/a.txt", "text");
    file.edit("more text".to_string());
    assert_eq!(
        file.save_as(PathBuf::from("/readonly/b.txt"), Err("Read-only file system".to_string())),
        Err(IoError::WriteFailed("Read-only file system".to_string()))
    );
    assert_eq!(file.path, Some(PathBuf::from("/readonly/b.txt")));
    assert_eq!(file.name, "a.txt");
    assert!(file.changed);
    assert_eq!(file.content_buffer, "more text");
}
